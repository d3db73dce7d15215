use super::types::{DataBits, Parity, RtsType, StopBits};
use crate::text::{decimal_digits, push_decimal};
use vstd::prelude::*;
use vstd::string::*;

verus! {

/// The serial line and the timing of exchanges on it. Times are in whole
/// milliseconds, the RTS delay in microseconds.
#[derive(Debug, Clone)]
pub struct RtuConfig {
    pub device: String,
    pub baud_rate: u32,
    pub data_bits: DataBits,
    pub parity: Parity,
    pub stop_bits: StopBits,
    /// How the RTS line steers the driver.
    pub rts_type: RtsType,
    /// Pause after each change of direction.
    pub rts_delay_us: u64,
    /// Whether the operating system's buffers are emptied after a write.
    pub flush_after_write: bool,
    /// Time allowed for a whole exchange, request and response.
    pub transaction_timeout_ms: u64,
    /// Time allowed for a single read or write on the port.
    pub serial_timeout_ms: u64,
    /// The longest request that is sent.
    pub max_frame_size: u64,
}

impl RtuConfig {
    /// How the port is described in messages.
    pub open spec fn port_text(self) -> Seq<char> {
        self.device@ + " ("@ + decimal_digits(self.baud_rate as nat) + " baud, "@ + decimal_digits(
            self.data_bits.bits() as nat,
        ) + " data bits, "@ + self.parity.text() + " parity, "@ + self.stop_bits.text()
            + " stop bits)"@
    }

    /// How the port is described in messages.
    pub fn serial_port_info(&self) -> (s: String)
        ensures
            s@ == self.port_text(),
    {
        let mut s = self.device.clone();
        s.append(" (");
        push_decimal(&mut s, self.baud_rate as u64);
        s.append(" baud, ");
        push_decimal(&mut s, self.data_bits.get() as u64);
        s.append(" data bits, ");
        let parity = self.parity.to_string();
        s.append(parity.as_str());
        s.append(" parity, ");
        let stop_bits = self.stop_bits.to_string();
        s.append(stop_bits.as_str());
        s.append(" stop bits)");
        assert(s@ =~= self.port_text());
        s
    }
}

impl Default for RtuConfig {
    fn default() -> (c: Self)
        ensures
            c.device@ == "/dev/ttyAMA0"@,
            c.baud_rate == 9600,
            c.data_bits.bits() == 8,
            c.parity == Parity::Off,
            c.stop_bits == StopBits::One,
            c.rts_type == RtsType::Down,
            c.rts_delay_us == 3500,
            c.flush_after_write,
            c.transaction_timeout_ms == 5000,
            c.serial_timeout_ms == 1000,
            c.max_frame_size == 256,
    {
        RtuConfig {
            device: String::from_str("/dev/ttyAMA0"),
            baud_rate: 9600,
            data_bits: DataBits::default(),
            parity: Parity::default(),
            stop_bits: StopBits::default(),
            rts_type: RtsType::default(),
            rts_delay_us: 3500,
            flush_after_write: true,
            transaction_timeout_ms: 5000,
            serial_timeout_ms: 1000,
            max_frame_size: 256,
        }
    }
}

} // verus!
