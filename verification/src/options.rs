//! Tuning options for senders and receivers.
//!
//! An options object records only the fields the caller explicitly set;
//! applying it to a parsed peer configuration overwrites exactly those
//! fields and leaves every other field at the value the native parser
//! chose.

use vstd::prelude::*;

verus! {

/// Wire value of disabled recovery in the native engine.
pub const RAW_RECOVERY_MODE_DISABLED: i32 = 1;

/// Wire value of time-based recovery in the native engine.
pub const RAW_RECOVERY_MODE_TIME: i32 = 2;

/// Recovery mode for packet loss recovery.
#[derive(Debug, Clone, Copy, PartialEq, Eq, Structural)]
pub enum RecoveryMode {
    /// Recovery is disabled.
    Disabled,
    /// Time-based recovery (default).
    Time,
}

impl RecoveryMode {
    /// The mode's value in the native engine's numbering.
    pub open spec fn raw_value(self) -> i32 {
        match self {
            RecoveryMode::Disabled => RAW_RECOVERY_MODE_DISABLED,
            RecoveryMode::Time => RAW_RECOVERY_MODE_TIME,
        }
    }

    /// Convert the mode to the native engine's numbering.
    #[verifier::when_used_as_spec(raw_value)]
    pub fn to_raw(self) -> (r: i32)
        ensures
            r == self.raw_value(),
    {
        match self {
            RecoveryMode::Disabled => RAW_RECOVERY_MODE_DISABLED,
            RecoveryMode::Time => RAW_RECOVERY_MODE_TIME,
        }
    }
}

impl Default for RecoveryMode {
    /// Time-based recovery is the default.
    fn default() -> (r: Self)
        ensures
            r is Time,
    {
        RecoveryMode::Time
    }
}

/// The tunable fields of a parsed peer configuration, as the native
/// engine keeps them.  Durations are held in whole milliseconds.
#[derive(Debug, Clone, Copy, PartialEq, Eq, Structural)]
pub struct PeerConfig {
    /// Recovery mode, in the native numbering.
    pub recovery_mode: i32,
    /// Maximum bitrate for recovery (bps).
    pub recovery_maxbitrate: u32,
    /// Minimum recovery buffer length (ms).
    pub recovery_length_min: u32,
    /// Maximum recovery buffer length (ms).
    pub recovery_length_max: u32,
    /// Reorder buffer depth (packets).
    pub recovery_reorder_buffer: u32,
    /// Minimum assumed round-trip time (ms).
    pub recovery_rtt_min: u32,
    /// Maximum assumed round-trip time (ms).
    pub recovery_rtt_max: u32,
}

/// Options for configuring a receiver.  Unset fields keep native defaults.
#[derive(Debug, Clone, Copy)]
pub struct ReceiverOptions {
    /// Recovery mode for packet loss.
    pub recovery_mode: Option<RecoveryMode>,
    /// Maximum bitrate for recovery (bps).
    pub recovery_maxbitrate: Option<u32>,
    /// Minimum recovery buffer length (ms).
    pub recovery_length_min: Option<u64>,
    /// Maximum recovery buffer length (ms).
    pub recovery_length_max: Option<u64>,
    /// Reorder buffer size (packets).
    pub recovery_reorder_buffer: Option<u32>,
    /// Minimum RTT for recovery (ms).
    pub recovery_rtt_min: Option<u64>,
    /// Maximum RTT for recovery (ms).
    pub recovery_rtt_max: Option<u64>,
    /// Output FIFO size (packets). 0 to disable.
    pub fifo_size: Option<u32>,
}

impl ReceiverOptions {
    /// Receiver options with no field set.
    pub open spec fn unset() -> Self {
        ReceiverOptions {
            recovery_mode: None,
            recovery_maxbitrate: None,
            recovery_length_min: None,
            recovery_length_max: None,
            recovery_reorder_buffer: None,
            recovery_rtt_min: None,
            recovery_rtt_max: None,
            fifo_size: None,
        }
    }

    /// Create new receiver options with defaults.
    pub fn new() -> (r: Self)
        ensures
            r == Self::unset(),
    {
        ReceiverOptions {
            recovery_mode: None,
            recovery_maxbitrate: None,
            recovery_length_min: None,
            recovery_length_max: None,
            recovery_reorder_buffer: None,
            recovery_rtt_min: None,
            recovery_rtt_max: None,
            fifo_size: None,
        }
    }

    /// Set the recovery mode.
    pub fn recovery_mode(self, mode: RecoveryMode) -> (r: Self)
        ensures
            r == (Self { recovery_mode: Some(mode), ..self }),
    {
        Self { recovery_mode: Some(mode), ..self }
    }

    /// Set maximum recovery bitrate in bps.
    pub fn recovery_maxbitrate(self, bitrate: u32) -> (r: Self)
        ensures
            r == (Self { recovery_maxbitrate: Some(bitrate), ..self }),
    {
        Self { recovery_maxbitrate: Some(bitrate), ..self }
    }

    /// Set minimum recovery buffer length, in milliseconds.
    pub fn recovery_length_min(self, millis: u64) -> (r: Self)
        ensures
            r == (Self { recovery_length_min: Some(millis), ..self }),
    {
        Self { recovery_length_min: Some(millis), ..self }
    }

    /// Set maximum recovery buffer length, in milliseconds.
    pub fn recovery_length_max(self, millis: u64) -> (r: Self)
        ensures
            r == (Self { recovery_length_max: Some(millis), ..self }),
    {
        Self { recovery_length_max: Some(millis), ..self }
    }

    /// Set FIFO buffer size.
    pub fn fifo_size(self, size: u32) -> (r: Self)
        ensures
            r == (Self { fifo_size: Some(size), ..self }),
    {
        Self { fifo_size: Some(size), ..self }
    }

    /// The configuration that applying these options to `config` yields:
    /// every set field overwritten, every unset field kept.
    pub open spec fn applied_to(self, config: PeerConfig) -> PeerConfig {
        PeerConfig {
            recovery_mode: match self.recovery_mode {
                Some(mode) => mode.raw_value(),
                None => config.recovery_mode,
            },
            recovery_maxbitrate: match self.recovery_maxbitrate {
                Some(bitrate) => bitrate,
                None => config.recovery_maxbitrate,
            },
            recovery_length_min: match self.recovery_length_min {
                Some(millis) => millis as u32,
                None => config.recovery_length_min,
            },
            recovery_length_max: match self.recovery_length_max {
                Some(millis) => millis as u32,
                None => config.recovery_length_max,
            },
            recovery_reorder_buffer: match self.recovery_reorder_buffer {
                Some(depth) => depth,
                None => config.recovery_reorder_buffer,
            },
            recovery_rtt_min: match self.recovery_rtt_min {
                Some(millis) => millis as u32,
                None => config.recovery_rtt_min,
            },
            recovery_rtt_max: match self.recovery_rtt_max {
                Some(millis) => millis as u32,
                None => config.recovery_rtt_max,
            },
        }
    }

    /// Write the explicitly set fields into a parsed peer configuration;
    /// unset fields retain what the native parser chose.
    pub fn apply_to_peer_config(&self, config: &mut PeerConfig)
        ensures
            *final(config) == self.applied_to(*old(config)),
    {
        if let Some(mode) = self.recovery_mode {
            config.recovery_mode = mode.to_raw();
        }
        if let Some(bitrate) = self.recovery_maxbitrate {
            config.recovery_maxbitrate = bitrate;
        }
        if let Some(millis) = self.recovery_length_min {
            config.recovery_length_min = #[verifier::truncate] (millis as u32);
        }
        if let Some(millis) = self.recovery_length_max {
            config.recovery_length_max = #[verifier::truncate] (millis as u32);
        }
        if let Some(depth) = self.recovery_reorder_buffer {
            config.recovery_reorder_buffer = depth;
        }
        if let Some(millis) = self.recovery_rtt_min {
            config.recovery_rtt_min = #[verifier::truncate] (millis as u32);
        }
        if let Some(millis) = self.recovery_rtt_max {
            config.recovery_rtt_max = #[verifier::truncate] (millis as u32);
        }
    }
}

impl Default for ReceiverOptions {
    /// No field is set by default.
    fn default() -> (r: Self)
        ensures
            r == Self::unset(),
    {
        Self::new()
    }
}

/// Options for configuring a sender.  Unset fields keep native defaults.
#[derive(Debug, Clone, Copy)]
pub struct SenderOptions {
    /// Recovery mode for packet loss.
    pub recovery_mode: Option<RecoveryMode>,
    /// Maximum bitrate for recovery (bps).
    pub recovery_maxbitrate: Option<u32>,
    /// Minimum recovery buffer length (ms).
    pub recovery_length_min: Option<u64>,
    /// Maximum recovery buffer length (ms).
    pub recovery_length_max: Option<u64>,
}

impl SenderOptions {
    /// Sender options with no field set.
    pub open spec fn unset() -> Self {
        SenderOptions {
            recovery_mode: None,
            recovery_maxbitrate: None,
            recovery_length_min: None,
            recovery_length_max: None,
        }
    }

    /// Create new sender options with defaults.
    pub fn new() -> (r: Self)
        ensures
            r == Self::unset(),
    {
        SenderOptions {
            recovery_mode: None,
            recovery_maxbitrate: None,
            recovery_length_min: None,
            recovery_length_max: None,
        }
    }

    /// Set the recovery mode.
    pub fn recovery_mode(self, mode: RecoveryMode) -> (r: Self)
        ensures
            r == (Self { recovery_mode: Some(mode), ..self }),
    {
        Self { recovery_mode: Some(mode), ..self }
    }

    /// Set maximum recovery bitrate in bps.
    pub fn recovery_maxbitrate(self, bitrate: u32) -> (r: Self)
        ensures
            r == (Self { recovery_maxbitrate: Some(bitrate), ..self }),
    {
        Self { recovery_maxbitrate: Some(bitrate), ..self }
    }

    /// Set minimum recovery buffer length, in milliseconds.
    pub fn recovery_length_min(self, millis: u64) -> (r: Self)
        ensures
            r == (Self { recovery_length_min: Some(millis), ..self }),
    {
        Self { recovery_length_min: Some(millis), ..self }
    }

    /// Set maximum recovery buffer length, in milliseconds.
    pub fn recovery_length_max(self, millis: u64) -> (r: Self)
        ensures
            r == (Self { recovery_length_max: Some(millis), ..self }),
    {
        Self { recovery_length_max: Some(millis), ..self }
    }

    /// The configuration that applying these options to `config` yields:
    /// every set field overwritten, every unset field kept.
    pub open spec fn applied_to(self, config: PeerConfig) -> PeerConfig {
        PeerConfig {
            recovery_mode: match self.recovery_mode {
                Some(mode) => mode.raw_value(),
                None => config.recovery_mode,
            },
            recovery_maxbitrate: match self.recovery_maxbitrate {
                Some(bitrate) => bitrate,
                None => config.recovery_maxbitrate,
            },
            recovery_length_min: match self.recovery_length_min {
                Some(millis) => millis as u32,
                None => config.recovery_length_min,
            },
            recovery_length_max: match self.recovery_length_max {
                Some(millis) => millis as u32,
                None => config.recovery_length_max,
            },
            ..config
        }
    }

    /// Write the explicitly set fields into a parsed peer configuration;
    /// unset fields retain what the native parser chose.
    pub fn apply_to_peer_config(&self, config: &mut PeerConfig)
        ensures
            *final(config) == self.applied_to(*old(config)),
    {
        if let Some(mode) = self.recovery_mode {
            config.recovery_mode = mode.to_raw();
        }
        if let Some(bitrate) = self.recovery_maxbitrate {
            config.recovery_maxbitrate = bitrate;
        }
        if let Some(millis) = self.recovery_length_min {
            config.recovery_length_min = #[verifier::truncate] (millis as u32);
        }
        if let Some(millis) = self.recovery_length_max {
            config.recovery_length_max = #[verifier::truncate] (millis as u32);
        }
    }
}

impl Default for SenderOptions {
    /// No field is set by default.
    fn default() -> (r: Self)
        ensures
            r == Self::unset(),
    {
        Self::new()
    }
}

} // verus!
