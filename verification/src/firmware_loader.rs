use vstd::prelude::*;

use crate::error::Error;
use crate::registers::Register;
use crate::sensor::Mpu6050;
use crate::sensor::lemma_push_write_log;
use crate::transport::DelayProvider;
use crate::transport::Event;
use crate::transport::Transport;
use crate::transport::count_writes_to;
use crate::transport::lemma_count_writes_append;
use crate::transport::lemma_count_writes_push;
use crate::transport::lemma_written_regs_append;
use crate::transport::write_ev;
use crate::transport::written_regs;

verus! {

/// The events of writing one bank's bytes chunk by chunk: for each
/// consecutive 16-byte chunk (the final chunk may be shorter), a write of
/// the chunk's starting offset into the memory-start-address register,
/// then one frame carrying the memory read/write register address followed
/// by the chunk's bytes.
pub open spec fn chunk_events(address: u8, data: Seq<u8>, offset: u8) -> Seq<Event>
    decreases data.len(),
{
    if data.len() == 0 {
        Seq::empty()
    } else if data.len() <= 16 {
        seq![
            write_ev(address, Register::MemStartAddr.spec_addr(), offset),
            Event::Write { address, bytes: seq![Register::MemRw.spec_addr()] + data },
        ]
    } else {
        seq![
            write_ev(address, Register::MemStartAddr.spec_addr(), offset),
            Event::Write { address, bytes: seq![Register::MemRw.spec_addr()] + data.take(16) },
        ] + chunk_events(address, data.skip(16), (offset + 16) as u8)
    }
}

/// The events of loading a whole firmware image: for each consecutive
/// 256-byte bank (the final bank may be shorter), a write of the bank index
/// into the bank-select register followed by that bank's chunk events.
pub open spec fn firmware_events(address: u8, data: Seq<u8>, bank: u8) -> Seq<Event>
    decreases data.len(),
{
    if data.len() == 0 {
        Seq::empty()
    } else if data.len() <= 256 {
        seq![write_ev(address, Register::BankSel.spec_addr(), bank)] + chunk_events(
            address,
            data,
            0,
        )
    } else {
        seq![write_ev(address, Register::BankSel.spec_addr(), bank)] + chunk_events(
            address,
            data.take(256),
            0,
        ) + firmware_events(address, data.skip(256), (bank + 1) as u8)
    }
}

/// The register addresses selected while writing one bank of `len` bytes:
/// a start-address/memory-write pair per chunk.
pub open spec fn chunk_written_regs(len: nat) -> Seq<u8>
    decreases len,
{
    if len == 0 {
        Seq::empty()
    } else if len <= 16 {
        seq![Register::MemStartAddr.spec_addr(), Register::MemRw.spec_addr()]
    } else {
        seq![Register::MemStartAddr.spec_addr(), Register::MemRw.spec_addr()]
            + chunk_written_regs((len - 16) as nat)
    }
}

/// The register addresses selected while loading a firmware image of `len`
/// bytes: a bank-select write per bank, each followed by its chunk pairs.
pub open spec fn firmware_written_regs(len: nat) -> Seq<u8>
    decreases len,
{
    if len == 0 {
        Seq::empty()
    } else if len <= 256 {
        seq![Register::BankSel.spec_addr()] + chunk_written_regs(len)
    } else {
        seq![Register::BankSel.spec_addr()] + chunk_written_regs(256) + firmware_written_regs(
            (len - 256) as nat,
        )
    }
}

/// The register projection of one bank's chunk events depends only on the
/// bank's length.
pub proof fn lemma_chunk_events_regs(address: u8, data: Seq<u8>, offset: u8)
    ensures
        written_regs(chunk_events(address, data, offset)) == chunk_written_regs(data.len()),
    decreases data.len(),
{
    if data.len() == 0 {
    } else {
        let e1 = write_ev(address, Register::MemStartAddr.spec_addr(), offset);
        let payload = if data.len() <= 16 {
            data
        } else {
            data.take(16)
        };
        let e2 = Event::Write { address, bytes: seq![Register::MemRw.spec_addr()] + payload };
        let empty = Seq::<Event>::empty();
        assert(written_regs(empty) =~= Seq::<u8>::empty());
        assert(seq![e1, e2] =~= empty.push(e1).push(e2));
        lemma_push_write_log(empty, address, seq![Register::MemStartAddr.spec_addr(), offset]);
        lemma_push_write_log(empty.push(e1), address, seq![Register::MemRw.spec_addr()] + payload);
        assert((seq![Register::MemRw.spec_addr()] + payload)[0] == Register::MemRw.spec_addr());
        assert(written_regs(seq![e1, e2]) =~= seq![
            Register::MemStartAddr.spec_addr(),
            Register::MemRw.spec_addr(),
        ]);
        if data.len() <= 16 {
            assert(written_regs(chunk_events(address, data, offset)) =~= chunk_written_regs(
                data.len(),
            ));
        } else {
            lemma_chunk_events_regs(address, data.skip(16), (offset + 16) as u8);
            lemma_written_regs_append(
                seq![e1, e2],
                chunk_events(address, data.skip(16), (offset + 16) as u8),
            );
            assert(written_regs(chunk_events(address, data, offset)) =~= chunk_written_regs(
                data.len(),
            ));
        }
    }
}

/// The register projection of a firmware load depends only on the image's
/// length.
pub proof fn lemma_firmware_events_regs(address: u8, data: Seq<u8>, bank: u8)
    ensures
        written_regs(firmware_events(address, data, bank)) == firmware_written_regs(data.len()),
    decreases data.len(),
{
    if data.len() == 0 {
    } else {
        let e0 = write_ev(address, Register::BankSel.spec_addr(), bank);
        let empty = Seq::<Event>::empty();
        assert(written_regs(empty) =~= Seq::<u8>::empty());
        assert(seq![e0] =~= empty.push(e0));
        lemma_push_write_log(empty, address, seq![Register::BankSel.spec_addr(), bank]);
        assert(written_regs(seq![e0]) =~= seq![Register::BankSel.spec_addr()]);
        if data.len() <= 256 {
            lemma_chunk_events_regs(address, data, 0);
            lemma_written_regs_append(seq![e0], chunk_events(address, data, 0));
            assert(written_regs(firmware_events(address, data, bank)) =~= firmware_written_regs(
                data.len(),
            ));
        } else {
            lemma_chunk_events_regs(address, data.take(256), 0);
            lemma_firmware_events_regs(address, data.skip(256), (bank + 1) as u8);
            lemma_written_regs_append(seq![e0], chunk_events(address, data.take(256), 0));
            lemma_written_regs_append(
                seq![e0] + chunk_events(address, data.take(256), 0),
                firmware_events(address, data.skip(256), (bank + 1) as u8),
            );
            assert(data.take(256).len() == 256);
            assert(written_regs(firmware_events(address, data, bank)) =~= firmware_written_regs(
                data.len(),
            ));
        }
    }
}

/// Within one bank, the chunk events form a start-address/data pair per
/// 16 bytes begun: ceil(len/16) writes to each of the two registers, no
/// bank-select write, and two events per pair.
pub proof fn lemma_chunk_partitioning(address: u8, data: Seq<u8>, offset: u8)
    ensures
        chunk_events(address, data, offset).len() == 2 * ((data.len() + 15) / 16),
        count_writes_to(chunk_events(address, data, offset), Register::MemStartAddr.spec_addr())
            == (data.len() + 15) / 16,
        count_writes_to(chunk_events(address, data, offset), Register::MemRw.spec_addr()) == (
        data.len() + 15) / 16,
        count_writes_to(chunk_events(address, data, offset), Register::BankSel.spec_addr()) == 0,
    decreases data.len(),
{
    if data.len() == 0 {
        assert(count_writes_to(Seq::<Event>::empty(), Register::MemStartAddr.spec_addr()) == 0);
        assert(count_writes_to(Seq::<Event>::empty(), Register::MemRw.spec_addr()) == 0);
        assert(count_writes_to(Seq::<Event>::empty(), Register::BankSel.spec_addr()) == 0);
    } else {
        let e1 = write_ev(address, Register::MemStartAddr.spec_addr(), offset);
        let payload = if data.len() <= 16 {
            data
        } else {
            data.take(16)
        };
        let e2 = Event::Write { address, bytes: seq![Register::MemRw.spec_addr()] + payload };
        let empty = Seq::<Event>::empty();
        let pair = seq![e1, e2];
        assert(pair =~= empty.push(e1).push(e2));
        assert((seq![Register::MemRw.spec_addr()] + payload)[0] == Register::MemRw.spec_addr());
        lemma_count_writes_push(empty, e1, Register::MemStartAddr.spec_addr());
        lemma_count_writes_push(empty.push(e1), e2, Register::MemStartAddr.spec_addr());
        lemma_count_writes_push(empty, e1, Register::MemRw.spec_addr());
        lemma_count_writes_push(empty.push(e1), e2, Register::MemRw.spec_addr());
        lemma_count_writes_push(empty, e1, Register::BankSel.spec_addr());
        lemma_count_writes_push(empty.push(e1), e2, Register::BankSel.spec_addr());
        assert(count_writes_to(pair, Register::MemStartAddr.spec_addr()) == 1);
        assert(count_writes_to(pair, Register::MemRw.spec_addr()) == 1);
        assert(count_writes_to(pair, Register::BankSel.spec_addr()) == 0);
        if data.len() <= 16 {
            assert((data.len() + 15) / 16 == 1);
        } else {
            let rest = chunk_events(address, data.skip(16), (offset + 16) as u8);
            lemma_chunk_partitioning(address, data.skip(16), (offset + 16) as u8);
            lemma_count_writes_append(pair, rest, Register::MemStartAddr.spec_addr());
            lemma_count_writes_append(pair, rest, Register::MemRw.spec_addr());
            lemma_count_writes_append(pair, rest, Register::BankSel.spec_addr());
            assert(data.skip(16).len() == data.len() - 16);
            assert(((data.len() - 16) + 15) / 16 + 1 == (data.len() + 15) / 16);
        }
    }
}

/// For an image of `len` bytes, a firmware load selects the bank-select
/// register exactly ceil(len/256) times and each of the start-address and
/// memory read/write registers exactly ceil(len/16) times.
pub proof fn lemma_firmware_partitioning(address: u8, data: Seq<u8>, bank: u8)
    ensures
        count_writes_to(firmware_events(address, data, bank), Register::BankSel.spec_addr()) == (
        data.len() + 255) / 256,
        count_writes_to(firmware_events(address, data, bank), Register::MemStartAddr.spec_addr())
            == (data.len() + 15) / 16,
        count_writes_to(firmware_events(address, data, bank), Register::MemRw.spec_addr()) == (
        data.len() + 15) / 16,
    decreases data.len(),
{
    if data.len() == 0 {
        assert(count_writes_to(Seq::<Event>::empty(), Register::BankSel.spec_addr()) == 0);
        assert(count_writes_to(Seq::<Event>::empty(), Register::MemStartAddr.spec_addr()) == 0);
        assert(count_writes_to(Seq::<Event>::empty(), Register::MemRw.spec_addr()) == 0);
    } else {
        let e0 = write_ev(address, Register::BankSel.spec_addr(), bank);
        let empty = Seq::<Event>::empty();
        assert(seq![e0] =~= empty.push(e0));
        lemma_count_writes_push(empty, e0, Register::BankSel.spec_addr());
        lemma_count_writes_push(empty, e0, Register::MemStartAddr.spec_addr());
        lemma_count_writes_push(empty, e0, Register::MemRw.spec_addr());
        if data.len() <= 256 {
            let ce = chunk_events(address, data, 0);
            lemma_chunk_partitioning(address, data, 0);
            lemma_count_writes_append(seq![e0], ce, Register::BankSel.spec_addr());
            lemma_count_writes_append(seq![e0], ce, Register::MemStartAddr.spec_addr());
            lemma_count_writes_append(seq![e0], ce, Register::MemRw.spec_addr());
            assert((data.len() + 255) / 256 == 1);
        } else {
            let ce = chunk_events(address, data.take(256), 0);
            let fe = firmware_events(address, data.skip(256), (bank + 1) as u8);
            lemma_chunk_partitioning(address, data.take(256), 0);
            lemma_firmware_partitioning(address, data.skip(256), (bank + 1) as u8);
            lemma_count_writes_append(seq![e0], ce, Register::BankSel.spec_addr());
            lemma_count_writes_append(seq![e0] + ce, fe, Register::BankSel.spec_addr());
            lemma_count_writes_append(seq![e0], ce, Register::MemStartAddr.spec_addr());
            lemma_count_writes_append(seq![e0] + ce, fe, Register::MemStartAddr.spec_addr());
            lemma_count_writes_append(seq![e0], ce, Register::MemRw.spec_addr());
            lemma_count_writes_append(seq![e0] + ce, fe, Register::MemRw.spec_addr());
            assert(data.take(256).len() == 256);
            assert(data.skip(256).len() == data.len() - 256);
            assert(((data.len() - 256) + 255) / 256 + 1 == (data.len() + 255) / 256);
            assert(((data.len() - 256) + 15) / 16 + 16 == (data.len() + 15) / 16);
        }
    }
}

/// Within one bank, the `k`-th chunk write pair addresses offset `16 * k`
/// and carries exactly the bytes from `16 * k` up to the next chunk
/// boundary or the end of the bank: `min(16, len - 16 * k)` bytes.
pub proof fn lemma_chunk_payloads(address: u8, data: Seq<u8>, offset: u8, k: int)
    requires
        0 <= k,
        16 * k < data.len(),
        offset + data.len() <= 256,
        offset % 16 == 0,
    ensures
        ({
            let events = chunk_events(address, data, offset);
            let rem = data.len() - 16 * k;
            let size: int = if rem <= 16 {
                rem as int
            } else {
                16
            };
            &&& events.len() >= 2 * k + 2
            &&& events[2 * k] == write_ev(
                address,
                Register::MemStartAddr.spec_addr(),
                (offset + 16 * k) as u8,
            )
            &&& events[2 * k + 1] == (Event::Write {
                address,
                bytes: seq![Register::MemRw.spec_addr()] + data.subrange(16 * k, 16 * k + size),
            })
        }),
    decreases k,
{
    lemma_chunk_partitioning(address, data, offset);
    let events = chunk_events(address, data, offset);
    if k == 0 {
        if data.len() <= 16 {
            assert(data.subrange(0, data.len() as int) =~= data);
        } else {
            assert(data.subrange(0, 16) =~= data.take(16));
        }
    } else {
        let payload = if data.len() <= 16 {
            data
        } else {
            data.take(16)
        };
        let e1 = write_ev(address, Register::MemStartAddr.spec_addr(), offset);
        let e2 = Event::Write { address, bytes: seq![Register::MemRw.spec_addr()] + payload };
        let rest = chunk_events(address, data.skip(16), (offset + 16) as u8);
        assert(data.len() > 16);
        assert(events == seq![e1, e2] + rest);
        lemma_chunk_payloads(address, data.skip(16), (offset + 16) as u8, k - 1);
        assert(events[2 * k] == rest[2 * (k - 1)]);
        assert(events[2 * k + 1] == rest[2 * (k - 1) + 1]);
        assert((offset + 16 + 16 * (k - 1)) as u8 == (offset + 16 * k) as u8);
        let rem = data.len() - 16 * k;
        let size: int = if rem <= 16 {
            rem as int
        } else {
            16
        };
        assert(data.skip(16).subrange(16 * (k - 1), 16 * (k - 1) + size) =~= data.subrange(
            16 * k,
            16 * k + size,
        ));
    }
}

impl<T: Transport, D: DelayProvider> Mpu6050<T, D> {
    /// Select the memory bank that subsequent memory writes address.
    fn set_bank(&mut self, bank: u8) -> (r: Result<(), Error<T::Error>>)
        ensures
            final(self).spec_address() == old(self).spec_address(),
            final(self).delay_log() == old(self).delay_log(),
            r is Ok ==> final(self).bus_log() == old(self).bus_log().push(
                write_ev(old(self).spec_address(), Register::BankSel.spec_addr(), bank),
            ),
    {
        self.write_register(Register::BankSel, bank)
    }

    /// Set the byte offset within the selected bank that the next memory
    /// write starts at.
    fn set_memory_start_address(&mut self, addr: u8) -> (r: Result<(), Error<T::Error>>)
        ensures
            final(self).spec_address() == old(self).spec_address(),
            final(self).delay_log() == old(self).delay_log(),
            r is Ok ==> final(self).bus_log() == old(self).bus_log().push(
                write_ev(old(self).spec_address(), Register::MemStartAddr.spec_addr(), addr),
            ),
    {
        self.write_register(Register::MemStartAddr, addr)
    }

    /// Write one bank: select its index, then write its bytes in ascending
    /// 16-byte chunks, each chunk preceded by its start-offset write and
    /// carried in a single frame behind the memory read/write register
    /// address.
    #[verifier::loop_isolation(false)]
    fn write_bank(&mut self, bank: u8, data: &[u8]) -> (r: Result<(), Error<T::Error>>)
        requires
            0 < data@.len() <= 256,
        ensures
            final(self).spec_address() == old(self).spec_address(),
            final(self).delay_log() == old(self).delay_log(),
            r is Ok ==> final(self).bus_log() == old(self).bus_log().push(
                write_ev(old(self).spec_address(), Register::BankSel.spec_addr(), bank),
            ) + chunk_events(old(self).spec_address(), data@, 0),
    {
        match self.set_bank(bank) {
            Ok(()) => (),
            Err(e) => return Err(e),
        };
        let ghost mid = self.bus_log();
        let ghost address = old(self).spec_address();
        let mut pos: usize = 0;
        proof {
            assert(data@.skip(0) =~= data@);
        }
        while pos < data.len()
            invariant
                pos <= data@.len(),
                0 < data@.len() <= 256,
                pos % 16 == 0 || pos == data@.len(),
                self.spec_address() == address,
                self.delay_log() == old(self).delay_log(),
                self.bus_log() + chunk_events(address, data@.skip(pos as int), pos as u8) == mid
                    + chunk_events(address, data@, 0),
            decreases data@.len() - pos,
        {
            let end = if pos + 16 <= data.len() {
                pos + 16
            } else {
                data.len()
            };
            let ghost log0 = self.bus_log();
            match self.set_memory_start_address(pos as u8) {
                Ok(()) => (),
                Err(e) => return Err(e),
            };
            let mut frame: Vec<u8> = Vec::new();
            frame.push(Register::MemRw.addr());
            proof {
                assert(frame@ =~= seq![Register::MemRw.spec_addr()] + data@.subrange(
                    pos as int,
                    pos as int,
                ));
            }
            let mut i: usize = pos;
            while i < end
                invariant
                    pos <= i <= end,
                    end <= data@.len(),
                    frame@ == seq![Register::MemRw.spec_addr()] + data@.subrange(
                        pos as int,
                        i as int,
                    ),
                decreases end - i,
            {
                let b = data[i];
                frame.push(b);
                i += 1;
                proof {
                    assert(frame@ =~= seq![Register::MemRw.spec_addr()] + data@.subrange(
                        pos as int,
                        i as int,
                    ));
                }
            }
            match self.write(frame.as_slice()) {
                Ok(()) => (),
                Err(e) => return Err(e),
            };
            proof {
                let rem = data@.skip(pos as int);
                let e1 = write_ev(address, Register::MemStartAddr.spec_addr(), pos as u8);
                let e2 = Event::Write { address, bytes: frame@ };
                assert(self.bus_log() =~= log0 + seq![e1, e2]);
                if data@.len() - pos <= 16 {
                    assert(rem =~= data@.subrange(pos as int, end as int));
                    assert(chunk_events(address, rem, pos as u8) == seq![
                        e1,
                        Event::Write {
                            address,
                            bytes: seq![Register::MemRw.spec_addr()] + rem,
                        },
                    ]);
                    assert(data@.skip(end as int) =~= Seq::<u8>::empty());
                    assert(chunk_events(address, rem, pos as u8) =~= seq![e1, e2]);
                    assert((self.bus_log() + chunk_events(
                        address,
                        data@.skip(end as int),
                        end as u8,
                    )) =~= self.bus_log());
                    assert(self.bus_log() + chunk_events(address, data@.skip(end as int), end as u8)
                        =~= mid + chunk_events(address, data@, 0));
                } else {
                    assert(rem.take(16) =~= data@.subrange(pos as int, end as int));
                    assert(rem.skip(16) =~= data@.skip(end as int));
                    assert((pos as u8 + 16) as u8 == end as u8);
                    assert(chunk_events(address, rem, pos as u8) == seq![
                        e1,
                        Event::Write {
                            address,
                            bytes: seq![Register::MemRw.spec_addr()] + rem.take(16),
                        },
                    ] + chunk_events(address, rem.skip(16), (pos as u8 + 16) as u8));
                    assert(chunk_events(address, rem, pos as u8) =~= seq![e1, e2] + chunk_events(
                        address,
                        data@.skip(end as int),
                        end as u8,
                    ));
                    assert(self.bus_log() + chunk_events(address, data@.skip(end as int), end as u8)
                        =~= (log0 + seq![e1, e2]) + chunk_events(
                        address,
                        data@.skip(end as int),
                        end as u8,
                    ));
                    assert((log0 + seq![e1, e2]) + chunk_events(
                        address,
                        data@.skip(end as int),
                        end as u8,
                    ) =~= log0 + chunk_events(address, rem, pos as u8));
                    assert(self.bus_log() + chunk_events(address, data@.skip(end as int), end as u8)
                        =~= mid + chunk_events(address, data@, 0));
                }
            }
            pos = end;
        }
        proof {
            assert(data@.skip(pos as int) =~= Seq::<u8>::empty());
            assert(self.bus_log() + chunk_events(address, data@.skip(pos as int), pos as u8)
                =~= self.bus_log());
            assert(self.bus_log() =~= mid + chunk_events(address, data@, 0));
        }
        Ok(())
    }

    /// Write a whole firmware image into device memory, bank by ascending
    /// bank.
    #[verifier::loop_isolation(false)]
    fn write_memory(&mut self, data: &[u8]) -> (r: Result<(), Error<T::Error>>)
        requires
            data@.len() <= 65536,
        ensures
            final(self).spec_address() == old(self).spec_address(),
            final(self).delay_log() == old(self).delay_log(),
            r is Ok ==> final(self).bus_log() == old(self).bus_log() + firmware_events(
                old(self).spec_address(),
                data@,
                0,
            ),
    {
        let ghost pre = self.bus_log();
        let ghost address = old(self).spec_address();
        let mut pos: usize = 0;
        proof {
            assert(data@.skip(0) =~= data@);
        }
        while pos < data.len()
            invariant
                pos <= data@.len() <= 65536,
                pos % 256 == 0 || pos == data@.len(),
                self.spec_address() == address,
                self.delay_log() == old(self).delay_log(),
                self.bus_log() + firmware_events(address, data@.skip(pos as int), (pos / 256) as u8)
                    == pre + firmware_events(address, data@, 0),
            decreases data@.len() - pos,
        {
            let end = if pos + 256 <= data.len() {
                pos + 256
            } else {
                data.len()
            };
            let bank: u8 = (pos / 256) as u8;
            let ghost log0 = self.bus_log();
            let chunk = &data[pos..end];
            match self.write_bank(bank, chunk) {
                Ok(()) => (),
                Err(e) => return Err(e),
            };
            proof {
                let rem = data@.skip(pos as int);
                let e0 = write_ev(address, Register::BankSel.spec_addr(), bank);
                assert(chunk@ == data@.subrange(pos as int, end as int));
                if data@.len() - pos <= 256 {
                    assert(rem =~= chunk@);
                    assert(firmware_events(address, rem, bank) == seq![e0] + chunk_events(
                        address,
                        rem,
                        0,
                    ));
                    assert(data@.skip(end as int) =~= Seq::<u8>::empty());
                    assert(self.bus_log() =~= log0.push(e0) + chunk_events(address, chunk@, 0));
                    assert(log0.push(e0) + chunk_events(address, chunk@, 0) =~= log0 + (seq![e0]
                        + chunk_events(address, rem, 0)));
                    assert(self.bus_log() + firmware_events(
                        address,
                        data@.skip(end as int),
                        (end / 256) as u8,
                    ) =~= pre + firmware_events(address, data@, 0));
                } else {
                    assert(rem.take(256) =~= chunk@);
                    assert(rem.skip(256) =~= data@.skip(end as int));
                    assert((bank + 1) as u8 == (end / 256) as u8);
                    assert(firmware_events(address, rem, bank) == seq![e0] + chunk_events(
                        address,
                        rem.take(256),
                        0,
                    ) + firmware_events(address, rem.skip(256), (bank + 1) as u8));
                    assert(self.bus_log() =~= log0.push(e0) + chunk_events(address, chunk@, 0));
                    assert(self.bus_log() + firmware_events(
                        address,
                        data@.skip(end as int),
                        (end / 256) as u8,
                    ) =~= log0 + firmware_events(address, rem, bank));
                    assert(self.bus_log() + firmware_events(
                        address,
                        data@.skip(end as int),
                        (end / 256) as u8,
                    ) =~= pre + firmware_events(address, data@, 0));
                }
            }
            pos = end;
        }
        proof {
            assert(data@.skip(pos as int) =~= Seq::<u8>::empty());
            assert(self.bus_log() + firmware_events(address, data@.skip(pos as int), (pos
                / 256) as u8) =~= self.bus_log());
            assert(self.bus_log() =~= pre + firmware_events(address, data@, 0));
        }
        Ok(())
    }

    /// Load a firmware image into the device's banked memory.
    ///
    /// The bank-select register is one byte wide, so an image can span at
    /// most 256 banks of 256 bytes. Any write failure aborts the load and
    /// leaves the device in an undefined firmware state.
    pub fn load_firmware(&mut self, firmware: &[u8]) -> (r: Result<(), Error<T::Error>>)
        requires
            firmware@.len() <= 65536,
        ensures
            final(self).spec_address() == old(self).spec_address(),
            final(self).delay_log() == old(self).delay_log(),
            r is Ok ==> final(self).bus_log() == old(self).bus_log() + firmware_events(
                old(self).spec_address(),
                firmware@,
                0,
            ),
            r is Ok ==> written_regs(final(self).bus_log()) == written_regs(old(self).bus_log())
                + firmware_written_regs(firmware@.len()),
    {
        let r = self.write_memory(firmware);
        proof {
            if r is Ok {
                lemma_written_regs_append(
                    old(self).bus_log(),
                    firmware_events(old(self).spec_address(), firmware@, 0),
                );
                lemma_firmware_events_regs(old(self).spec_address(), firmware@, 0);
            }
        }
        r
    }

    /// Start execution of the loaded firmware by writing the fixed two-byte
    /// program-start offset into the program-start register.
    pub fn boot_firmware(&mut self) -> (r: Result<(), Error<T::Error>>)
        ensures
            final(self).spec_address() == old(self).spec_address(),
            final(self).delay_log() == old(self).delay_log(),
            r is Ok ==> final(self).bus_log() == old(self).bus_log().push(Event::Write {
                address: old(self).spec_address(),
                bytes: seq![Register::PrgmStart.spec_addr(), 0x04u8, 0x00u8],
            }),
            r is Ok ==> written_regs(final(self).bus_log()) == written_regs(
                old(self).bus_log(),
            ).push(Register::PrgmStart.spec_addr()),
    {
        let frame: [u8; 3] = [Register::PrgmStart.addr(), 0x04, 0x00];
        proof {
            assert(frame@ =~= seq![Register::PrgmStart.spec_addr(), 0x04u8, 0x00u8]);
        }
        let r = self.write(frame.as_slice());
        proof {
            if r is Ok {
                lemma_push_write_log(
                    old(self).bus_log(),
                    old(self).spec_address(),
                    seq![Register::PrgmStart.spec_addr(), 0x04u8, 0x00u8],
                );
            }
        }
        r
    }
}

} // verus!
