use vstd::prelude::*;

verus! {

/// Mono 16-bit PCM audio, as handed to the encoder.
#[derive(Debug, Clone)]
pub struct PcmAudio {
    pub samples: Vec<i16>,
    /// Samples per second.
    pub sample_rate: u32,
}

/// Information about an audio input device.
#[derive(Debug, Clone)]
pub struct DeviceInfo {
    pub name: String,
    pub is_default: bool,
}

/// Rate at which capture is preferred, in Hz.
pub const PREFERRED_SAMPLE_RATE: u32 = 16000;

/// Capture backend of the host's sound system.
#[derive(Debug, Clone, Copy)]
pub struct CpalBackend;

/// Whether `n` samples at `rate` samples per second last less than the
/// floor of a tenth of a second. Audio with a zero rate lasts no time.
pub open spec fn too_short(n: nat, rate: nat) -> bool {
    rate == 0 || n * 10 < rate
}

/// Duration of `n` samples at `rate`, in milliseconds, rounded half up.
pub open spec fn duration_millis(n: nat, rate: nat) -> nat {
    if rate == 0 {
        0
    } else {
        ((2000 * n + rate) / (2 * rate)) as nat
    }
}

pub open spec fn digit_char(d: nat) -> char {
    if d == 0 {
        '0'
    } else if d == 1 {
        '1'
    } else if d == 2 {
        '2'
    } else if d == 3 {
        '3'
    } else if d == 4 {
        '4'
    } else if d == 5 {
        '5'
    } else if d == 6 {
        '6'
    } else if d == 7 {
        '7'
    } else if d == 8 {
        '8'
    } else {
        '9'
    }
}

/// Decimal notation of `n`, without leading zeros.
pub open spec fn decimal(n: nat) -> Seq<char>
    decreases n,
{
    if n < 10 {
        seq![digit_char(n)]
    } else {
        decimal(n / 10).push(digit_char(n % 10))
    }
}

/// A duration in milliseconds written as seconds with three decimals (`0.050`).
pub open spec fn seconds_text(millis: nat) -> Seq<char> {
    let frac = millis % 1000;
    decimal(millis / 1000) + seq![
        '.',
        digit_char(frac / 100),
        digit_char((frac / 10) % 10),
        digit_char(frac % 10),
    ]
}

/// Reason given when a capture is under the duration floor.
pub open spec fn too_short_text(n: nat, rate: nat) -> Seq<char> {
    "Recording too short ("@ + seconds_text(duration_millis(n, rate))
        + "s); hold longer before releasing"@
}

/// Whether the capture must end: a stop was requested, or a nonzero limit
/// has been reached. A limit of zero means no limit.
pub open spec fn capture_stop_due(stop_requested: bool, elapsed_ms: nat, max_ms: nat) -> bool {
    stop_requested || (max_ms > 0 && elapsed_ms >= max_ms)
}

/// How a device is listed: its name, marked when it is the default one.
pub open spec fn device_label(d: DeviceInfo) -> Seq<char> {
    if d.is_default {
        d.name@ + " (default)"@
    } else {
        d.name@
    }
}

impl DeviceInfo {
    /// The device's name, followed by ` (default)` for the default device.
    pub fn label(&self) -> (r: String)
        ensures
            r@ == device_label(*self),
    {
        if self.is_default {
            self.name.clone().concat(" (default)")
        } else {
            self.name.clone()
        }
    }
}

/// Whether a supported capture range can be used at the preferred rate: it
/// delivers 32-bit float samples and its rates include 16 kHz.
pub fn fits_preferred_rate(is_f32: bool, min_rate: u32, max_rate: u32) -> (r: bool)
    ensures
        r == (is_f32 && min_rate <= PREFERRED_SAMPLE_RATE <= max_rate),
{
    is_f32 && min_rate <= PREFERRED_SAMPLE_RATE && max_rate >= PREFERRED_SAMPLE_RATE
}

impl PcmAudio {
    /// Whether this audio is under the duration floor of a tenth of a second.
    pub fn is_too_short(&self) -> (r: bool)
        ensures
            r == too_short(self.samples@.len(), self.sample_rate as nat),
    {
        let n = self.samples.len();
        self.sample_rate == 0 || (n as u128) * 10 < self.sample_rate as u128
    }

    /// Duration in milliseconds, rounded half up.
    pub fn duration_millis(&self) -> (r: u128)
        ensures
            r == duration_millis(self.samples@.len(), self.sample_rate as nat),
    {
        if self.sample_rate == 0 {
            0
        } else {
            let n = self.samples.len() as u128;
            let rate = self.sample_rate as u128;
            assert(n * 2000 <= 0xffff_ffff_ffff_ffffu128 * 2000) by (nonlinear_arith)
                requires
                    n <= 0xffff_ffff_ffff_ffffu128,
            ;
            (2000 * n + rate) / (2 * rate)
        }
    }

    /// Failure reason for audio under the duration floor, stating its length.
    pub fn too_short_reason(&self) -> (r: String)
        ensures
            r@ == too_short_text(self.samples@.len(), self.sample_rate as nat),
    {
        let millis = self.duration_millis();
        let mut text = String::from_str("Recording too short (");
        push_seconds(&mut text, millis);
        text.append("s); hold longer before releasing");
        text
    }
}

fn digit_str(d: u128) -> (r: &'static str)
    requires
        d < 10,
    ensures
        r@ == seq![digit_char(d as nat)],
{
    proof {
        reveal_strlit("0");
        reveal_strlit("1");
        reveal_strlit("2");
        reveal_strlit("3");
        reveal_strlit("4");
        reveal_strlit("5");
        reveal_strlit("6");
        reveal_strlit("7");
        reveal_strlit("8");
        reveal_strlit("9");
    }
    if d == 0 {
        "0"
    } else if d == 1 {
        "1"
    } else if d == 2 {
        "2"
    } else if d == 3 {
        "3"
    } else if d == 4 {
        "4"
    } else if d == 5 {
        "5"
    } else if d == 6 {
        "6"
    } else if d == 7 {
        "7"
    } else if d == 8 {
        "8"
    } else {
        "9"
    }
}

/// Appends the decimal notation of `n`.
pub fn push_decimal(text: &mut String, n: u128)
    ensures
        final(text)@ == old(text)@ + decimal(n as nat),
    decreases n,
{
    if n >= 10 {
        push_decimal(text, n / 10);
    }
    text.append(digit_str(n % 10));
    proof {
        if n >= 10 {
            assert(decimal(n as nat) == decimal((n / 10) as nat).push(digit_char((n % 10) as nat)));
        }
    }
    assert(final(text)@ =~= old(text)@ + decimal(n as nat));
}

/// Appends a duration in milliseconds as seconds with three decimals.
pub fn push_seconds(text: &mut String, millis: u128)
    ensures
        final(text)@ == old(text)@ + seconds_text(millis as nat),
{
    let frac = millis % 1000;
    push_decimal(text, millis / 1000);
    text.append(".");
    text.append(digit_str(frac / 100));
    text.append(digit_str((frac / 10) % 10));
    text.append(digit_str(frac % 10));
    proof {
        reveal_strlit(".");
    }
    assert(final(text)@ =~= old(text)@ + seconds_text(millis as nat));
}

/// Whether a running capture must end now, after `elapsed_ms` milliseconds,
/// under a limit of `max_ms` milliseconds (zero: no limit).
pub fn capture_should_stop(stop_requested: bool, elapsed_ms: u64, max_ms: u64) -> (r: bool)
    ensures
        r == capture_stop_due(stop_requested, elapsed_ms as nat, max_ms as nat),
{
    stop_requested || (max_ms > 0 && elapsed_ms >= max_ms)
}

} // verus!
