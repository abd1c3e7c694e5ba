//! A driver for the BK Precision 196X family of power supplies.
//!
//! Every command is an ASCII line: a four-letter mnemonic, the device address as
//! two decimal digits, an optional payload and a carriage return. The device
//! misreads commands that arrive too close together, so each one is followed by
//! a quiet interval.
use vstd::prelude::*;

use super::{ConfigError, PowerSupply, SupplyError, Transmission};

verus! {

/// Quiet interval after every command, in milliseconds.
pub const PACING_INTERVAL_MS: u64 = 100;

/// Serial line speed; the line is 8 data bits, no parity, 1 stop bit.
pub const BAUD_RATE: u32 = 9600;

/// Largest device address.
pub const MAX_ADDRESS: u8 = 99;

/// ASCII code of `'0'`.
pub const ZERO: u8 = 48;

/// Carriage return, the end of every command.
pub const CR: u8 = 13;

/// The ASCII digit for `d`.
pub open spec fn digit(d: nat) -> u8
    recommends
        d < 10,
{
    (ZERO + d) as u8
}

/// Whether `b` is an ASCII decimal digit.
pub open spec fn is_digit(b: u8) -> bool {
    ZERO <= b < ZERO + 10
}

/// The decimal digits of `n`, most significant first, without leading zeros.
pub open spec fn decimal(n: nat) -> Seq<u8>
    decreases n,
{
    if n < 10 {
        seq![digit(n)]
    } else {
        decimal(n / 10).push(digit(n % 10))
    }
}

/// `n` in decimal, padded on the left with zeros to at least `width` digits.
pub open spec fn zero_padded(n: nat, width: nat) -> Seq<u8> {
    let d = decimal(n);
    if d.len() < width {
        Seq::new((width - d.len()) as nat, |_i: int| ZERO) + d
    } else {
        d
    }
}

/// The number that a string of decimal digits denotes.
pub open spec fn digits_value(s: Seq<u8>) -> nat
    decreases s.len(),
{
    if s.len() == 0 {
        0
    } else {
        digits_value(s.drop_last()) * 10 + (s.last() - ZERO) as nat
    }
}

/// `n / d` rounded to the nearest integer, halves rounded up.
pub open spec fn round_half_up(n: nat, d: nat) -> nat
    recommends
        d > 0,
{
    (2 * n + d) / (2 * d)
}

/// A voltage in millivolts as a count of tenths of a volt.
pub open spec fn voltage_units(millivolts: nat) -> nat {
    round_half_up(millivolts, 100)
}

/// A current in milliamps as a count of hundredths of an amp.
pub open spec fn current_units(milliamps: nat) -> nat {
    round_half_up(milliamps, 10)
}

/// One command of the device's line protocol, before it is encoded.
#[derive(Clone, Copy, Debug, PartialEq, Eq, Structural)]
pub enum Command {
    /// Opens a remote session: the front panel stops taking input.
    Sess,
    /// Ends the remote session and hands control back to the front panel.
    Ends,
    /// Sets the voltage limit, sent in tenths of a volt with halves rounded up.
    Volt { millivolts: u32 },
    /// Sets the current limit, sent in hundredths of an amp with halves rounded up.
    Curr { milliamps: u32 },
    /// Switches the output; the wire flag is `0` to enable and `1` to disable.
    Sout { enabled: bool },
}

impl Command {
    /// The four-letter mnemonic that starts the command.
    pub open spec fn mnemonic(self) -> Seq<u8> {
        match self {
            Command::Sess => seq![83u8, 69u8, 83u8, 83u8],
            Command::Ends => seq![69u8, 78u8, 68u8, 83u8],
            Command::Volt { .. } => seq![86u8, 79u8, 76u8, 84u8],
            Command::Curr { .. } => seq![67u8, 85u8, 82u8, 82u8],
            Command::Sout { .. } => seq![83u8, 79u8, 85u8, 84u8],
        }
    }

    /// What follows the address.
    pub open spec fn payload(self) -> Seq<u8> {
        match self {
            Command::Sess | Command::Ends => Seq::empty(),
            Command::Volt { millivolts } => zero_padded(voltage_units(millivolts as nat), 3),
            Command::Curr { milliamps } => zero_padded(current_units(milliamps as nat), 3),
            Command::Sout { enabled } => seq![if enabled { ZERO } else { (ZERO + 1) as u8 }],
        }
    }

    /// The whole line for the device at `address`.
    pub open spec fn frame(self, address: u8) -> Seq<u8> {
        self.mnemonic() + zero_padded(address as nat, 2) + self.payload() + seq![CR]
    }

    /// Encodes the command for the device at `address`.
    pub fn encode(&self, address: u8) -> (r: Vec<u8>)
        ensures
            r@ == self.frame(address),
    {
        let mut out: Vec<u8> = match self {
            Command::Sess => vec![83u8, 69u8, 83u8, 83u8],
            Command::Ends => vec![69u8, 78u8, 68u8, 83u8],
            Command::Volt { .. } => vec![86u8, 79u8, 76u8, 84u8],
            Command::Curr { .. } => vec![67u8, 85u8, 82u8, 82u8],
            Command::Sout { .. } => vec![83u8, 79u8, 85u8, 84u8],
        };
        push_zero_padded(&mut out, address as u64, 2);
        match self {
            Command::Sess | Command::Ends => {},
            Command::Volt { millivolts } => {
                push_zero_padded(&mut out, scale_rounded(*millivolts as u64, 100), 3);
            },
            Command::Curr { milliamps } => {
                push_zero_padded(&mut out, scale_rounded(*milliamps as u64, 10), 3);
            },
            Command::Sout { enabled } => {
                out.push(if *enabled { ZERO } else { ZERO + 1 });
            },
        }
        out.push(CR);
        assert(out@ =~= self.frame(address));
        out
    }

    /// The command as it goes on the wire, with the pause that must follow it.
    pub fn send(&self, address: u8) -> (r: Transmission)
        ensures
            r.bytes@ == self.frame(address),
            r.pause_ms == PACING_INTERVAL_MS,
    {
        Transmission { bytes: self.encode(address), pause_ms: PACING_INTERVAL_MS }
    }
}

/// Whether `r` carries exactly `command` for the device at `address`, followed by the
/// quiet interval.
pub open spec fn sends(r: Result<Transmission, SupplyError>, command: Command, address: u8) -> bool {
    &&& r is Ok
    &&& r->Ok_0.bytes@ == command.frame(address)
    &&& r->Ok_0.pause_ms == PACING_INTERVAL_MS
}

/// Settings of one BK Precision 196X device.
pub struct Config {
    /// The serial device: a path such as `/dev/ttyUSB0`, or a name such as `COM3`.
    pub serial_interface: String,
    /// The device's bus address, 0 when not configured otherwise.
    pub address: u8,
}

impl Config {
    /// What `load` returns: a configuration error for an address out of range,
    /// otherwise a driver for that address and the command that opens the session.
    pub open spec fn loads(self, r: Result<(BkPrecision196X, Transmission), ConfigError>) -> bool {
        if self.address > MAX_ADDRESS {
            r == Err::<(BkPrecision196X, Transmission), ConfigError>(
                ConfigError::AddressOutOfRange { address: self.address },
            )
        } else {
            &&& r is Ok
            &&& r->Ok_0.0.spec_address() == self.address
            &&& r->Ok_0.1.bytes@ == Command::Sess.frame(self.address)
            &&& r->Ok_0.1.pause_ms == PACING_INTERVAL_MS
        }
    }

    /// Validates the address and starts a session: the driver, and the command to
    /// send once the serial port is open. Nothing is to be sent when this fails.
    pub fn load(&self) -> (r: Result<(BkPrecision196X, Transmission), ConfigError>)
        ensures
            self.loads(r),
    {
        if self.address > MAX_ADDRESS {
            return Err(ConfigError::AddressOutOfRange { address: self.address });
        }
        let driver = BkPrecision196X { address: self.address };
        let opening = Command::Sess.send(self.address);
        Ok((driver, opening))
    }
}

/// A session with one BK Precision 196X device. The serial transport is the
/// caller's: every operation hands back the bytes to write and the pause after them.
pub struct BkPrecision196X {
    address: u8,
}

impl BkPrecision196X {
    #[verifier::type_invariant]
    spec fn inv(self) -> bool {
        self.address <= MAX_ADDRESS
    }

    /// The device address that the session was opened with.
    pub closed spec fn spec_address(self) -> u8 {
        self.address
    }

    /// The device address that the session was opened with.
    pub fn address(&self) -> (r: u8)
        ensures
            r == self.spec_address(),
            r <= MAX_ADDRESS,
    {
        proof {
            use_type_invariant(self);
        }
        self.address
    }
}

impl PowerSupply for BkPrecision196X {
    /// Sends `SOUT` with the inverted flag of the device: `0` enables, `1` disables.
    fn enable_output(&mut self, enabled: bool) -> (r: Result<Transmission, SupplyError>)
        ensures
            *final(self) == *old(self),
            sends(r, Command::Sout { enabled }, old(self).spec_address()),
    {
        Ok(Command::Sout { enabled }.send(self.address))
    }

    /// Sends `VOLT` with the limit in tenths of a volt; out-of-range limits are the
    /// device's to reject.
    fn set_voltage_limit(&mut self, millivolts: u32) -> (r: Result<Transmission, SupplyError>)
        ensures
            *final(self) == *old(self),
            sends(r, Command::Volt { millivolts }, old(self).spec_address()),
    {
        Ok(Command::Volt { millivolts }.send(self.address))
    }

    /// Sends `CURR` with the limit in hundredths of an amp; out-of-range limits are
    /// the device's to reject.
    fn set_current_limit(&mut self, milliamps: u32) -> (r: Result<Transmission, SupplyError>)
        ensures
            *final(self) == *old(self),
            sends(r, Command::Curr { milliamps }, old(self).spec_address()),
    {
        Ok(Command::Curr { milliamps }.send(self.address))
    }

    /// Sends `ENDS`, which returns the device to front-panel control and leaves its
    /// output as it is. Owed whatever happened earlier in the session, a failed
    /// write included.
    fn close(self) -> (r: Result<Transmission, SupplyError>)
        ensures
            sends(r, Command::Ends, self.spec_address()),
    {
        Ok(Command::Ends.send(self.address))
    }
}

/// Three digits, most significant first, for a number below one thousand.
proof fn lemma_three_digits(n: nat)
    requires
        n <= 999,
    ensures
        zero_padded(n, 3) == seq![digit(n / 100), digit(n / 10 % 10), digit(n % 10)],
        digits_value(zero_padded(n, 3)) == n,
{
    reveal_with_fuel(decimal, 3);
    let z = zero_padded(n, 3);
    if n < 10 {
        assert(z =~= seq![digit(n / 100), digit(n / 10 % 10), digit(n % 10)]);
    } else if n < 100 {
        assert(decimal(n) =~= seq![digit(n / 10), digit(n % 10)]);
        assert(z =~= seq![digit(n / 100), digit(n / 10 % 10), digit(n % 10)]);
    } else {
        assert(decimal(n / 10) =~= seq![digit(n / 100), digit(n / 10 % 10)]);
        assert(z =~= seq![digit(n / 100), digit(n / 10 % 10), digit(n % 10)]);
    }
    reveal_with_fuel(digits_value, 4);
    assert(z.drop_last() =~= seq![digit(n / 100), digit(n / 10 % 10)]);
    assert(z.drop_last().drop_last() =~= seq![digit(n / 100)]);
    assert(z.drop_last().drop_last().drop_last() =~= Seq::<u8>::empty());
}

/// For every valid address the address field is exactly two decimal digits, tens
/// first, zero-padded, and reads back as the address.
pub proof fn lemma_address_field(address: u8)
    requires
        address <= MAX_ADDRESS,
    ensures
        zero_padded(address as nat, 2) == seq![
            digit((address / 10) as nat),
            digit((address % 10) as nat),
        ],
        digits_value(zero_padded(address as nat, 2)) == address,
{
    let a = address as nat;
    reveal_with_fuel(decimal, 2);
    let z = zero_padded(a, 2);
    assert(z =~= seq![digit(a / 10), digit(a % 10)]);
    reveal_with_fuel(digits_value, 3);
    assert(z.drop_last() =~= seq![digit(a / 10)]);
    assert(z.drop_last().drop_last() =~= Seq::<u8>::empty());
}

/// A voltage command whose value fits in three digits has the fixed form
/// `VOLT`, two address digits, three value digits, carriage return; reading the
/// digits back gives the address and the limit in tenths of a volt.
pub proof fn lemma_voltage_frame_round_trip(address: u8, millivolts: u32)
    requires
        address <= MAX_ADDRESS,
        voltage_units(millivolts as nat) <= 999,
    ensures
        ({
            let command = Command::Volt { millivolts };
            let f = command.frame(address);
            &&& f.len() == 10
            &&& f.subrange(0, 4) == command.mnemonic()
            &&& forall|i: int| 4 <= i < 9 ==> is_digit(#[trigger] f[i])
            &&& f[9] == CR
            &&& digits_value(f.subrange(4, 6)) == address
            &&& digits_value(f.subrange(6, 9)) == voltage_units(millivolts as nat)
        }),
{
    let command = Command::Volt { millivolts };
    let f = command.frame(address);
    let v = voltage_units(millivolts as nat);
    lemma_address_field(address);
    lemma_three_digits(v);
    assert(f.subrange(0, 4) =~= command.mnemonic());
    assert(f.subrange(4, 6) =~= zero_padded(address as nat, 2));
    assert(f.subrange(6, 9) =~= zero_padded(v, 3));
}

/// `n / d`, rounded to the nearest integer with halves rounded up.
fn scale_rounded(n: u64, d: u64) -> (r: u64)
    requires
        0 < d,
        n <= u32::MAX,
        d <= 1000,
    ensures
        r == round_half_up(n as nat, d as nat),
{
    (2 * n + d) / (2 * d)
}

/// Appends `n` in decimal, zero-padded to at least `width` digits.
fn push_zero_padded(out: &mut Vec<u8>, n: u64, width: usize)
    ensures
        final(out)@ == old(out)@ + zero_padded(n as nat, width as nat),
{
    let mut digits: Vec<u8> = Vec::new();
    let mut m: u64 = n;
    while m >= 10
        invariant
            decimal(n as nat) == decimal(m as nat) + digits@,
        decreases m,
    {
        let ghost before = digits@;
        digits.insert(0, ZERO + (m % 10) as u8);
        assert(decimal(m as nat) == decimal((m / 10) as nat).push(digit((m % 10) as nat)));
        assert(decimal(m as nat) + before =~= decimal((m / 10) as nat) + digits@);
        m = m / 10;
    }
    digits.insert(0, ZERO + m as u8);
    assert(decimal(n as nat) =~= digits@);
    let ghost start = out@;
    if digits.len() < width {
        let pad: usize = width - digits.len();
        let mut i: usize = 0;
        while i < pad
            invariant
                i <= pad,
                out@ =~= start + Seq::new(i as nat, |_j: int| ZERO),
            decreases pad - i,
        {
            out.push(ZERO);
            i = i + 1;
        }
    }
    out.append(&mut digits);
    assert(out@ =~= start + zero_padded(n as nat, width as nat));
}

} // verus!
