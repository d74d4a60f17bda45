//! The adapter driver: pack-mode handshake, speed negotiation and framed
//! sends over a bulk transport.
use vstd::prelude::*;
use core::time::Duration;
use crate::frame::{data_frame, data_frame_bytes, ACK_LEN, EP_IN, EP_OUT};
use crate::speed::{config_bytes, config_command, lookup_index, mode_of_reply, pack_mode_from_reply, speed_accepted, PackMode, INIT_ARG};

verus! {

/// Milliseconds that each bulk transfer may take.
pub const TRANSFER_TIMEOUT_MS: u64 = 500;

/// Bytes read back after a configuration command.
pub const REPLY_LEN: usize = 4;

/// Why a bulk transfer failed.
#[derive(Clone, Copy, Debug, PartialEq, Eq, Structural)]
pub enum TransportError {
    /// The deadline passed before the transfer completed.
    TimedOut,
    /// The device reported a failed transfer.
    Io,
}

/// Why an operation of the driver failed.
#[derive(Clone, Copy, Debug, PartialEq, Eq, Structural)]
pub enum ProbeError {
    /// No supported adapter is attached.
    NotFound,
    /// Opening the adapter or claiming its interface failed.
    Usb,
    /// The speed is not in the active table, no table is active yet, or the
    /// adapter refused it.
    UnsupportedSpeed(u32),
    /// A transfer did not complete before its deadline.
    TimedOut,
    /// A transfer failed on the device, or its reply held no byte.
    Io,
}

/// The driver's error for a failed transfer.
pub open spec fn transport_failure(e: TransportError) -> ProbeError {
    match e {
        TransportError::TimedOut => ProbeError::TimedOut,
        TransportError::Io => ProbeError::Io,
    }
}

/// Whether the reply to a speed-set command accepts the speed.
pub open spec fn accepts(reply: Seq<u8>) -> bool {
    reply.len() > 0 && reply.last() == 0
}

/// The outcome of asking for `khz` when the adapter replied `reply`.
pub open spec fn speed_outcome(khz: u32, reply: Seq<u8>) -> Result<u32, ProbeError> {
    if accepts(reply) {
        Ok(khz)
    } else {
        Err(ProbeError::UnsupportedSpeed(khz))
    }
}

/// The driver's error for a failed transfer.
pub fn transport_error(e: TransportError) -> (r: ProbeError)
    ensures
        r == transport_failure(e),
{
    match e {
        TransportError::TimedOut => ProbeError::TimedOut,
        TransportError::Io => ProbeError::Io,
    }
}

/// The outcome of asking for `khz` when the adapter replied `reply`: the
/// speed itself if the reply's last byte is `0x00`, else a refusal.
pub fn speed_reply(khz: u32, reply: &[u8]) -> (r: Result<u32, ProbeError>)
    ensures
        r == speed_outcome(khz, reply@),
{
    if speed_accepted(reply) {
        Ok(khz)
    } else {
        Err(ProbeError::UnsupportedSpeed(khz))
    }
}

/// Under the `Standard` mode every speed of its table is found, and a reply
/// whose last byte is `0x00` makes the request succeed with that speed.
pub proof fn lemma_standard_speeds_accepted(khz: u32, reply: Seq<u8>)
    requires
        khz == 1875 || khz == 3750 || khz == 7500 || khz == 15000 || khz == 30000 || khz == 60000,
        reply.len() > 0,
        reply.last() == 0,
    ensures
        lookup_index(Some(PackMode::Standard), khz) is Some,
        speed_outcome(khz, reply) == Ok::<u32, ProbeError>(khz),
{
}

/// Before the handshake resolves a pack mode no speed is found, so every
/// request is refused before any transfer.
pub proof fn lemma_unresolved_finds_nothing(khz: u32)
    ensures
        lookup_index(None, khz) == None::<u8>,
{
}

/// Timeout-bounded bulk transfers on the endpoints of a claimed interface.
pub trait InterfaceExt {
    /// Reads up to `buf.len()` bytes from `endpoint` into the front of `buf`
    /// and returns how many came.
    fn read_bulk(&self, endpoint: u8, buf: &mut [u8], timeout: Duration) -> Result<usize, TransportError>;

    /// Writes `buf` to `endpoint` and returns how many bytes the device took.
    fn write_bulk(&self, endpoint: u8, buf: &[u8], timeout: Duration) -> Result<usize, TransportError>;
}

/// Relies on Duration::from_millis: builds the duration of a transfer's
/// deadline; nothing about the value is claimed.
pub assume_specification[ core::time::Duration::from_millis ](millis: u64) -> core::time::Duration;

/// One bulk transfer handed to the transport, as the driver issued it.
pub struct Transfer {
    /// The endpoint it went to.
    pub endpoint: u8,
    /// The bytes written, or the bytes received (none for a failed read).
    pub data: Seq<u8>,
    /// For a read, the size of the buffer offered; 0 for a write.
    pub requested: usize,
    /// The deadline handed to the transport, in milliseconds.
    pub timeout_ms: u64,
    /// Why the transfer failed, if it did.
    pub failure: Option<TransportError>,
}

/// Whether `t` writes `data` to the OUT endpoint under the transfer deadline.
pub open spec fn is_write(t: Transfer, data: Seq<u8>) -> bool {
    &&& t.endpoint == EP_OUT
    &&& t.data == data
    &&& t.requested == 0
    &&& t.timeout_ms == TRANSFER_TIMEOUT_MS
}

/// Whether `t` reads into a buffer of `len` bytes from the IN endpoint under
/// the transfer deadline, receiving at most that many.
pub open spec fn is_read(t: Transfer, len: usize) -> bool {
    &&& t.endpoint == EP_IN
    &&& t.requested == len
    &&& t.timeout_ms == TRANSFER_TIMEOUT_MS
    &&& t.data.len() <= len
    &&& t.failure is Some ==> t.data.len() == 0
}

/// Whether `after` is `before` followed by one exchange: a write of `out`,
/// then, only if it succeeded, one read of up to `len` bytes, and nothing more.
pub open spec fn exchanged(before: Seq<Transfer>, after: Seq<Transfer>, out: Seq<u8>, len: usize) -> bool {
    let n = before.len() as int;
    &&& n + 1 <= after.len() <= n + 2
    &&& after.subrange(0, n) == before
    &&& is_write(after[n], out)
    &&& (after.len() == n + 1 <==> after[n].failure is Some)
    &&& after.len() == n + 2 ==> is_read(after[n + 1], len)
}

/// The driver's error for the last transfer of `ts`, if it failed.
pub open spec fn last_failure(ts: Seq<Transfer>) -> Option<ProbeError> {
    match ts.last().failure {
        Some(e) => Some(transport_failure(e)),
        None => None,
    }
}

/// A CH347/CH34x adapter driven through its JTAG interface.
pub struct CH34x<I> {
    device: I,
    pack: Option<PackMode>,
    /// Every transfer issued, in order.
    transfers: Ghost<Seq<Transfer>>,
}

impl<I: InterfaceExt> CH34x<I> {
    /// The pack mode the handshake resolved, if it ran.
    pub closed spec fn pack_mode(&self) -> Option<PackMode> {
        self.pack
    }

    /// The transfers issued so far.
    pub closed spec fn transfers(&self) -> Seq<Transfer> {
        self.transfers@
    }

    /// A driver over a claimed interface, with no pack mode resolved yet.
    pub fn new(device: I) -> (r: Self)
        ensures
            r.pack_mode() == None::<PackMode>,
            r.transfers() == Seq::<Transfer>::empty(),
    {
        CH34x { device, pack: None, transfers: Ghost(Seq::empty()) }
    }

    /// The pack mode the handshake resolved, if it ran.
    pub fn pack(&self) -> (r: Option<PackMode>)
        ensures
            r == self.pack_mode(),
    {
        self.pack
    }

    /// Writes `out` to the OUT endpoint, then, if that succeeded, reads up to
    /// `read_len` bytes from the IN endpoint and returns them. A failure of
    /// either transfer is returned as it came, with no retry.
    fn exchange(&mut self, out: &[u8], read_len: usize) -> (r: Result<Vec<u8>, ProbeError>)
        ensures
            final(self).pack_mode() == old(self).pack_mode(),
            exchanged(old(self).transfers(), final(self).transfers(), out@, read_len),
            match r {
                Ok(rx) => {
                    &&& last_failure(final(self).transfers()) == None::<ProbeError>
                    &&& rx@ == final(self).transfers().last().data
                },
                Err(e) => last_failure(final(self).transfers()) == Some(e),
            },
    {
        let ghost before = self.transfers@;
        let timeout = Duration::from_millis(TRANSFER_TIMEOUT_MS);
        let written = self.device.write_bulk(EP_OUT, out, timeout);
        let ghost write_failure = match written {
            Ok(_) => None,
            Err(e) => Some(e),
        };
        self.transfers = Ghost(
            self.transfers@.push(
                Transfer {
                    endpoint: EP_OUT,
                    data: out@,
                    requested: 0,
                    timeout_ms: TRANSFER_TIMEOUT_MS,
                    failure: write_failure,
                },
            ),
        );
        assert(self.transfers@.subrange(0, before.len() as int) =~= before);
        if let Err(e) = written {
            return Err(transport_error(e));
        }
        let mut rx: Vec<u8> = vec![0u8; read_len];
        let timeout = Duration::from_millis(TRANSFER_TIMEOUT_MS);
        let read = self.device.read_bulk(EP_IN, rx.as_mut_slice(), timeout);
        let ghost written_log = self.transfers@;
        let result = match read {
            Ok(n) => {
                if n > rx.len() || n > read_len {
                    Err(TransportError::Io)
                } else {
                    rx.truncate(n);
                    Ok(rx)
                }
            },
            Err(e) => Err(e),
        };
        let ghost received = match &result {
            Ok(v) => v@,
            Err(_) => Seq::empty(),
        };
        let ghost read_failure = match &result {
            Ok(_) => None,
            Err(e) => Some(*e),
        };
        self.transfers = Ghost(
            self.transfers@.push(
                Transfer {
                    endpoint: EP_IN,
                    data: received,
                    requested: read_len,
                    timeout_ms: TRANSFER_TIMEOUT_MS,
                    failure: read_failure,
                },
            ),
        );
        assert(self.transfers@.subrange(0, before.len() as int) =~= before) by {
            assert(self.transfers@.subrange(0, before.len() as int) =~= written_log.subrange(0, before.len() as int));
        }
        match result {
            Ok(rx) => Ok(rx),
            Err(e) => Err(transport_error(e)),
        }
    }

    /// The adapter index of `speed` kHz in the table of the resolved pack
    /// mode; a refusal if no mode is resolved or the table lacks the speed.
    pub fn speed_khz_index(&self, speed: u32) -> (r: Result<u8, ProbeError>)
        ensures
            match lookup_index(self.pack_mode(), speed) {
                Some(i) => r == Ok::<u8, ProbeError>(i),
                None => r == Err::<u8, ProbeError>(ProbeError::UnsupportedSpeed(speed)),
            },
    {
        match self.pack {
            Some(mode) => match mode.speed_index(speed) {
                Some(i) => Ok(i),
                None => Err(ProbeError::UnsupportedSpeed(speed)),
            },
            None => Err(ProbeError::UnsupportedSpeed(speed)),
        }
    }

    /// Runs the pack-mode handshake once: sends the init command and sets the
    /// pack mode from the last byte of the 4-byte reply. A failed transfer or
    /// an empty reply fails the handshake and keeps the mode.
    pub fn ch347_jtag_init(&mut self) -> (r: Result<PackMode, ProbeError>)
        ensures
            exchanged(old(self).transfers(), final(self).transfers(), config_bytes(INIT_ARG), REPLY_LEN),
            match last_failure(final(self).transfers()) {
                Some(e) => {
                    &&& r == Err::<PackMode, ProbeError>(e)
                    &&& final(self).pack_mode() == old(self).pack_mode()
                },
                None => match mode_of_reply(final(self).transfers().last().data) {
                    Some(m) => {
                        &&& r == Ok::<PackMode, ProbeError>(m)
                        &&& final(self).pack_mode() == Some(m)
                    },
                    None => {
                        &&& r == Err::<PackMode, ProbeError>(ProbeError::Io)
                        &&& final(self).pack_mode() == old(self).pack_mode()
                    },
                },
            },
    {
        let cmd = config_command(INIT_ARG);
        let rx = match self.exchange(cmd.as_slice(), REPLY_LEN) {
            Ok(rx) => rx,
            Err(e) => return Err(e),
        };
        match pack_mode_from_reply(rx.as_slice()) {
            Some(m) => {
                self.pack = Some(m);
                Ok(m)
            },
            None => Err(ProbeError::Io),
        }
    }

    /// Asks the adapter for a bit clock of `speed_khz` kHz and returns it once
    /// accepted. The table lookup comes first: a speed that the resolved mode
    /// lacks, or any speed before the handshake, is refused with no transfer.
    pub fn set_speed(&mut self, speed_khz: u32) -> (r: Result<u32, ProbeError>)
        ensures
            final(self).pack_mode() == old(self).pack_mode(),
            match lookup_index(old(self).pack_mode(), speed_khz) {
                None => {
                    &&& r == Err::<u32, ProbeError>(ProbeError::UnsupportedSpeed(speed_khz))
                    &&& final(self).transfers() == old(self).transfers()
                },
                Some(i) => {
                    &&& exchanged(old(self).transfers(), final(self).transfers(), config_bytes(i), REPLY_LEN)
                    &&& match last_failure(final(self).transfers()) {
                        Some(e) => r == Err::<u32, ProbeError>(e),
                        None => r == speed_outcome(speed_khz, final(self).transfers().last().data),
                    }
                },
            },
    {
        let index = match self.speed_khz_index(speed_khz) {
            Ok(i) => i,
            Err(e) => return Err(e),
        };
        let cmd = config_command(index);
        let rx = match self.exchange(cmd.as_slice(), REPLY_LEN) {
            Ok(rx) => rx,
            Err(e) => return Err(e),
        };
        speed_reply(speed_khz, rx.as_slice())
    }

    /// Sends `buf` in a data frame (whose length byte wraps for payloads of
    /// 255 bytes or more), then reads back the adapter's 64-byte
    /// acknowledgment and returns what came, unchecked. A failure of either
    /// transfer is returned as it came, with no retry.
    pub fn send(&mut self, buf: &[u8]) -> (r: Result<Vec<u8>, ProbeError>)
        ensures
            final(self).pack_mode() == old(self).pack_mode(),
            exchanged(old(self).transfers(), final(self).transfers(), data_frame_bytes(buf@), ACK_LEN),
            match last_failure(final(self).transfers()) {
                Some(e) => r == Err::<Vec<u8>, ProbeError>(e),
                None => r is Ok && r->Ok_0@ == final(self).transfers().last().data,
            },
    {
        let frame = data_frame(buf);
        self.exchange(frame.as_slice(), ACK_LEN)
    }
}

} // verus!
