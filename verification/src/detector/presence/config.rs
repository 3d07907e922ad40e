//! Presence detector configuration: a value object of named numeric and enum
//! fields, engine-side immutable once bound to a detector instance.
//!
//! Lengths are carried in millimeters and dimensionless engine quantities
//! (scores, thresholds, time constants, rates, cutoffs) in integer
//! milli-units: a threshold of 1.4 is 1400, a frame rate of 10 per second is
//! 10000. Every setter replaces exactly one named field and leaves the rest
//! as they were.

use vstd::prelude::*;
use crate::config::RadarIdleState;
use crate::config::RadarProfile;

verus! {

/// Configuration for radar presence detection.
#[derive(Clone, Copy, Debug, PartialEq, Eq, Structural)]
pub struct PresenceConfig {
    /// Identifier of the sensor the detector will drive.
    pub sensor_id: u32,
    /// Start of the measured range, in millimeters.
    pub start_mm: u32,
    /// End of the measured range, in millimeters.
    pub end_mm: u32,
    /// Whether the engine chooses the subsweep layout itself.
    pub automatic_subsweeps: bool,
    /// Target signal quality, in milli-units.
    pub signal_quality_milli: u32,
    /// Idle state kept between frames.
    pub inter_frame_idle_state: RadarIdleState,
    /// Number of sweeps per frame.
    pub sweeps_per_frame: u16,
    /// Frame rate, in milli-frames per second.
    pub frame_rate_milli: u32,
    /// Whether the application, not the sensor, paces the frames.
    pub frame_rate_app_driven: bool,
    /// Whether filters are reset when the detector is prepared.
    pub reset_filters_on_prepare: bool,
    /// Whether the fast, intra-frame motion path is enabled.
    pub intra_detection: bool,
    /// Detection threshold of the intra-frame path, in milli-units.
    pub intra_detection_threshold_milli: u32,
    /// Time constant of the intra-frame depthwise filter, in milli-seconds.
    pub intra_frame_time_const_milli: u32,
    /// Time constant of the intra-frame output filter, in milli-seconds.
    pub intra_output_time_const_milli: u32,
    /// Whether the slow, inter-frame motion path is enabled.
    pub inter_detection: bool,
    /// Detection threshold of the inter-frame path, in milli-units.
    pub inter_detection_threshold_milli: u32,
    /// Time constant of the inter-frame deviation filter, in milli-seconds.
    pub inter_frame_deviation_time_const_milli: u32,
    /// Fast cutoff of the inter-frame bandpass, in milli-hertz.
    pub inter_frame_fast_cutoff_milli: u32,
    /// Slow cutoff of the inter-frame bandpass, in milli-hertz.
    pub inter_frame_slow_cutoff_milli: u32,
    /// Time constant of the inter-frame output filter, in milli-seconds.
    pub inter_output_time_const_milli: u32,
    /// Frames without motion before inter-frame presence times out.
    pub inter_frame_presence_timeout: u16,
    /// Whether phase information boosts the inter-frame path.
    pub inter_phase_boost: bool,
    /// Whether the engine chooses the step length itself.
    pub auto_step_length: bool,
    /// Whether the engine chooses the profile itself.
    pub auto_profile: bool,
    /// Measurement profile used when not chosen automatically.
    pub profile: RadarProfile,
    /// Hardware accelerated average samples.
    pub hwaas: u16,
}

impl PresenceConfig {
    /// The configuration a fresh detector starts from.
    pub open spec fn spec_default() -> PresenceConfig {
        PresenceConfig {
            sensor_id: 1,
            start_mm: 300,
            end_mm: 2500,
            automatic_subsweeps: false,
            signal_quality_milli: 15000,
            inter_frame_idle_state: RadarIdleState::DeepSleep,
            sweeps_per_frame: 16,
            frame_rate_milli: 12000,
            frame_rate_app_driven: false,
            reset_filters_on_prepare: true,
            intra_detection: true,
            intra_detection_threshold_milli: 1300,
            intra_frame_time_const_milli: 150,
            intra_output_time_const_milli: 300,
            inter_detection: true,
            inter_detection_threshold_milli: 1000,
            inter_frame_deviation_time_const_milli: 500,
            inter_frame_fast_cutoff_milli: 6000,
            inter_frame_slow_cutoff_milli: 200,
            inter_output_time_const_milli: 2000,
            inter_frame_presence_timeout: 3,
            inter_phase_boost: false,
            auto_step_length: true,
            auto_profile: true,
            profile: RadarProfile::Profile4,
            hwaas: 32,
        }
    }

    /// Sets the sensor identifier.
    pub fn sensor_set(&mut self, sensor_id: u32)
        ensures
            *final(self) == (PresenceConfig { sensor_id, ..*old(self) }),
    {
        self.sensor_id = sensor_id;
    }

    /// Sets the measured range, start and end in millimeters.
    pub fn set_range(&mut self, start_mm: u32, end_mm: u32)
        requires
            start_mm <= end_mm,
        ensures
            *final(self) == (PresenceConfig { start_mm, end_mm, ..*old(self) }),
    {
        self.start_mm = start_mm;
        self.end_mm = end_mm;
    }

    /// Sets whether the engine chooses the subsweep layout itself.
    pub fn set_automatic_subsweeps(&mut self, enable: bool)
        ensures
            *final(self) == (PresenceConfig { automatic_subsweeps: enable, ..*old(self) }),
    {
        self.automatic_subsweeps = enable;
    }

    /// Sets the target signal quality, in milli-units.
    pub fn set_signal_quality(&mut self, signal_quality_milli: u32)
        ensures
            *final(self) == (PresenceConfig { signal_quality_milli, ..*old(self) }),
    {
        self.signal_quality_milli = signal_quality_milli;
    }

    /// Sets the idle state kept between frames.
    pub fn set_inter_frame_idle_state(&mut self, idle_state: RadarIdleState)
        ensures
            *final(self) == (PresenceConfig { inter_frame_idle_state: idle_state, ..*old(self) }),
    {
        self.inter_frame_idle_state = idle_state;
    }

    /// Sets the number of sweeps per frame.
    pub fn set_sweeps_per_frame(&mut self, sweeps: u16)
        ensures
            *final(self) == (PresenceConfig { sweeps_per_frame: sweeps, ..*old(self) }),
    {
        self.sweeps_per_frame = sweeps;
    }

    /// Sets the frame rate, in milli-frames per second.
    pub fn set_frame_rate(&mut self, frame_rate_milli: u32)
        ensures
            *final(self) == (PresenceConfig { frame_rate_milli, ..*old(self) }),
    {
        self.frame_rate_milli = frame_rate_milli;
    }

    /// Sets whether the application, not the sensor, paces the frames.
    pub fn set_frame_rate_app_driven(&mut self, app_driven: bool)
        ensures
            *final(self) == (PresenceConfig { frame_rate_app_driven: app_driven, ..*old(self) }),
    {
        self.frame_rate_app_driven = app_driven;
    }

    /// Sets whether filters are reset when the detector is prepared.
    pub fn set_reset_filters_on_prepare(&mut self, reset: bool)
        ensures
            *final(self) == (PresenceConfig { reset_filters_on_prepare: reset, ..*old(self) }),
    {
        self.reset_filters_on_prepare = reset;
    }

    /// Enables or disables the fast, intra-frame motion path.
    pub fn set_intra_detection(&mut self, enabled: bool)
        ensures
            *final(self) == (PresenceConfig { intra_detection: enabled, ..*old(self) }),
    {
        self.intra_detection = enabled;
    }

    /// Sets the intra-frame detection threshold, in milli-units.
    pub fn set_intra_detection_threshold(&mut self, threshold_milli: u32)
        ensures
            *final(self) == (PresenceConfig {
                intra_detection_threshold_milli: threshold_milli,
                ..*old(self)
            }),
    {
        self.intra_detection_threshold_milli = threshold_milli;
    }

    /// Sets the intra-frame filter time constant, in milli-seconds.
    pub fn set_intra_frame_time_const(&mut self, time_const_milli: u32)
        ensures
            *final(self) == (PresenceConfig {
                intra_frame_time_const_milli: time_const_milli,
                ..*old(self)
            }),
    {
        self.intra_frame_time_const_milli = time_const_milli;
    }

    /// Sets the intra-frame output filter time constant, in milli-seconds.
    pub fn set_intra_output_time_const(&mut self, time_const_milli: u32)
        ensures
            *final(self) == (PresenceConfig {
                intra_output_time_const_milli: time_const_milli,
                ..*old(self)
            }),
    {
        self.intra_output_time_const_milli = time_const_milli;
    }

    /// Enables or disables the slow, inter-frame motion path.
    pub fn set_inter_detection(&mut self, enabled: bool)
        ensures
            *final(self) == (PresenceConfig { inter_detection: enabled, ..*old(self) }),
    {
        self.inter_detection = enabled;
    }

    /// Sets the inter-frame detection threshold, in milli-units.
    pub fn set_inter_detection_threshold(&mut self, threshold_milli: u32)
        ensures
            *final(self) == (PresenceConfig {
                inter_detection_threshold_milli: threshold_milli,
                ..*old(self)
            }),
    {
        self.inter_detection_threshold_milli = threshold_milli;
    }

    /// Sets the inter-frame deviation filter time constant, in
    /// milli-seconds.
    pub fn set_inter_frame_deviation_time_const(&mut self, time_const_milli: u32)
        ensures
            *final(self) == (PresenceConfig {
                inter_frame_deviation_time_const_milli: time_const_milli,
                ..*old(self)
            }),
    {
        self.inter_frame_deviation_time_const_milli = time_const_milli;
    }

    /// Sets the fast cutoff of the inter-frame bandpass, in milli-hertz.
    pub fn set_inter_frame_fast_cutoff(&mut self, cutoff_milli: u32)
        ensures
            *final(self) == (PresenceConfig {
                inter_frame_fast_cutoff_milli: cutoff_milli,
                ..*old(self)
            }),
    {
        self.inter_frame_fast_cutoff_milli = cutoff_milli;
    }

    /// Sets the slow cutoff of the inter-frame bandpass, in milli-hertz.
    pub fn set_inter_frame_slow_cutoff(&mut self, cutoff_milli: u32)
        ensures
            *final(self) == (PresenceConfig {
                inter_frame_slow_cutoff_milli: cutoff_milli,
                ..*old(self)
            }),
    {
        self.inter_frame_slow_cutoff_milli = cutoff_milli;
    }

    /// Sets the inter-frame output filter time constant, in milli-seconds.
    pub fn set_inter_output_time_const(&mut self, time_const_milli: u32)
        ensures
            *final(self) == (PresenceConfig {
                inter_output_time_const_milli: time_const_milli,
                ..*old(self)
            }),
    {
        self.inter_output_time_const_milli = time_const_milli;
    }

    /// Sets how many motionless frames end inter-frame presence.
    pub fn set_inter_frame_presence_timeout(&mut self, timeout: u16)
        ensures
            *final(self) == (PresenceConfig {
                inter_frame_presence_timeout: timeout,
                ..*old(self)
            }),
    {
        self.inter_frame_presence_timeout = timeout;
    }

    /// Enables or disables the inter-frame phase boost.
    pub fn set_inter_phase_boost(&mut self, enabled: bool)
        ensures
            *final(self) == (PresenceConfig { inter_phase_boost: enabled, ..*old(self) }),
    {
        self.inter_phase_boost = enabled;
    }

    /// Sets whether the engine chooses the step length itself.
    pub fn set_auto_step_length(&mut self, enable: bool)
        ensures
            *final(self) == (PresenceConfig { auto_step_length: enable, ..*old(self) }),
    {
        self.auto_step_length = enable;
    }

    /// Sets whether the engine chooses the profile itself.
    pub fn set_auto_profile(&mut self, enable: bool)
        ensures
            *final(self) == (PresenceConfig { auto_profile: enable, ..*old(self) }),
    {
        self.auto_profile = enable;
    }

    /// Sets the measurement profile.
    pub fn profile_set(&mut self, profile: RadarProfile)
        ensures
            *final(self) == (PresenceConfig { profile, ..*old(self) }),
    {
        self.profile = profile;
    }

    /// Sets the hardware accelerated average samples.
    pub fn set_hwaas(&mut self, hwaas: u16)
        ensures
            *final(self) == (PresenceConfig { hwaas, ..*old(self) }),
    {
        self.hwaas = hwaas;
    }

    /// The short-range preset: 60 to 1000 millimeters.
    pub open spec fn spec_preset_short_range(base: PresenceConfig) -> PresenceConfig {
        PresenceConfig {
            start_mm: 60,
            end_mm: 1000,
            automatic_subsweeps: true,
            signal_quality_milli: 30000,
            inter_frame_idle_state: RadarIdleState::Ready,
            sweeps_per_frame: 16,
            frame_rate_milli: 10000,
            frame_rate_app_driven: false,
            reset_filters_on_prepare: true,
            intra_detection: true,
            intra_detection_threshold_milli: 1400,
            intra_frame_time_const_milli: 150,
            intra_output_time_const_milli: 300,
            inter_detection: true,
            inter_detection_threshold_milli: 1000,
            inter_frame_deviation_time_const_milli: 500,
            inter_frame_fast_cutoff_milli: 5000,
            inter_frame_slow_cutoff_milli: 200,
            inter_output_time_const_milli: 2000,
            inter_frame_presence_timeout: 3,
            inter_phase_boost: false,
            ..base
        }
    }

    /// Applies the short-range preset, leaving the fields it does not name
    /// (sensor, profile and step-length choices, average samples) untouched.
    pub fn preset_short_range(config: &mut PresenceConfig)
        ensures
            *final(config) == PresenceConfig::spec_preset_short_range(*old(config)),
    {
        config.set_range(60, 1000);
        config.set_automatic_subsweeps(true);
        config.set_signal_quality(30000);
        config.set_inter_frame_idle_state(RadarIdleState::Ready);
        config.set_sweeps_per_frame(16);

        config.set_frame_rate(10000);
        config.set_frame_rate_app_driven(false);
        config.set_reset_filters_on_prepare(true);

        config.set_intra_detection(true);
        config.set_intra_detection_threshold(1400);
        config.set_intra_frame_time_const(150);
        config.set_intra_output_time_const(300);

        config.set_inter_detection(true);
        config.set_inter_detection_threshold(1000);
        config.set_inter_frame_deviation_time_const(500);
        config.set_inter_frame_fast_cutoff(5000);
        config.set_inter_frame_slow_cutoff(200);
        config.set_inter_output_time_const(2000);
        config.set_inter_frame_presence_timeout(3);
        config.set_inter_phase_boost(false);
    }

    /// The medium-range preset: 300 to 2500 millimeters.
    pub open spec fn spec_preset_medium_range(base: PresenceConfig) -> PresenceConfig {
        PresenceConfig {
            start_mm: 300,
            end_mm: 2500,
            automatic_subsweeps: true,
            signal_quality_milli: 30000,
            inter_frame_idle_state: RadarIdleState::Ready,
            sweeps_per_frame: 16,
            frame_rate_milli: 10000,
            frame_rate_app_driven: false,
            reset_filters_on_prepare: true,
            intra_detection: true,
            intra_detection_threshold_milli: 1300,
            intra_frame_time_const_milli: 150,
            intra_output_time_const_milli: 300,
            inter_detection: true,
            inter_detection_threshold_milli: 1000,
            inter_frame_deviation_time_const_milli: 500,
            inter_frame_fast_cutoff_milli: 6000,
            inter_frame_slow_cutoff_milli: 200,
            inter_output_time_const_milli: 2000,
            inter_frame_presence_timeout: 3,
            inter_phase_boost: false,
            ..base
        }
    }

    /// Applies the medium-range preset, leaving the fields it does not name
    /// untouched.
    pub fn preset_medium_range(config: &mut PresenceConfig)
        ensures
            *final(config) == PresenceConfig::spec_preset_medium_range(*old(config)),
    {
        config.set_range(300, 2500);
        config.set_automatic_subsweeps(true);
        config.set_signal_quality(30000);
        config.set_inter_frame_idle_state(RadarIdleState::Ready);
        config.set_sweeps_per_frame(16);

        config.set_frame_rate(10000);
        config.set_frame_rate_app_driven(false);
        config.set_reset_filters_on_prepare(true);

        config.set_intra_detection(true);
        config.set_intra_detection_threshold(1300);
        config.set_intra_frame_time_const(150);
        config.set_intra_output_time_const(300);

        config.set_inter_detection(true);
        config.set_inter_detection_threshold(1000);
        config.set_inter_frame_deviation_time_const(500);
        config.set_inter_frame_fast_cutoff(6000);
        config.set_inter_frame_slow_cutoff(200);
        config.set_inter_output_time_const(2000);
        config.set_inter_frame_presence_timeout(3);
        config.set_inter_phase_boost(false);
    }

    /// The long-range preset: 5000 to 7500 millimeters.
    pub open spec fn spec_preset_long_range(base: PresenceConfig) -> PresenceConfig {
        PresenceConfig {
            start_mm: 5000,
            end_mm: 7500,
            automatic_subsweeps: true,
            signal_quality_milli: 10000,
            inter_frame_idle_state: RadarIdleState::Ready,
            sweeps_per_frame: 16,
            frame_rate_milli: 12000,
            frame_rate_app_driven: false,
            reset_filters_on_prepare: true,
            intra_detection: true,
            intra_detection_threshold_milli: 1200,
            intra_frame_time_const_milli: 150,
            intra_output_time_const_milli: 300,
            inter_detection: true,
            inter_detection_threshold_milli: 800,
            inter_frame_deviation_time_const_milli: 500,
            inter_frame_fast_cutoff_milli: 6000,
            inter_frame_slow_cutoff_milli: 200,
            inter_output_time_const_milli: 2000,
            inter_frame_presence_timeout: 3,
            inter_phase_boost: false,
            ..base
        }
    }

    /// Applies the long-range preset, leaving the fields it does not name
    /// untouched.
    pub fn preset_long_range(config: &mut PresenceConfig)
        ensures
            *final(config) == PresenceConfig::spec_preset_long_range(*old(config)),
    {
        config.set_range(5000, 7500);
        config.set_automatic_subsweeps(true);
        config.set_signal_quality(10000);
        config.set_inter_frame_idle_state(RadarIdleState::Ready);
        config.set_sweeps_per_frame(16);

        config.set_frame_rate(12000);
        config.set_frame_rate_app_driven(false);
        config.set_reset_filters_on_prepare(true);

        config.set_intra_detection(true);
        config.set_intra_detection_threshold(1200);
        config.set_intra_frame_time_const(150);
        config.set_intra_output_time_const(300);

        config.set_inter_detection(true);
        config.set_inter_detection_threshold(800);
        config.set_inter_frame_deviation_time_const(500);
        config.set_inter_frame_fast_cutoff(6000);
        config.set_inter_frame_slow_cutoff(200);
        config.set_inter_output_time_const(2000);
        config.set_inter_frame_presence_timeout(3);
        config.set_inter_phase_boost(false);
    }

    /// The ceiling-mount preset: 4000 to 7000 millimeters, automatic profile
    /// and step length.
    pub open spec fn spec_preset_ceiling(base: PresenceConfig) -> PresenceConfig {
        PresenceConfig {
            start_mm: 4000,
            end_mm: 7000,
            auto_profile: true,
            auto_step_length: true,
            sweeps_per_frame: 16,
            hwaas: 32,
            frame_rate_milli: 5000,
            inter_frame_idle_state: RadarIdleState::Ready,
            intra_detection: true,
            intra_detection_threshold_milli: 130,
            intra_frame_time_const_milli: 150,
            intra_output_time_const_milli: 300,
            inter_detection: true,
            inter_detection_threshold_milli: 1000,
            inter_frame_fast_cutoff_milli: 6000,
            inter_frame_slow_cutoff_milli: 200,
            inter_frame_deviation_time_const_milli: 500,
            inter_output_time_const_milli: 2000,
            inter_phase_boost: true,
            inter_frame_presence_timeout: 10,
            ..base
        }
    }

    /// Applies the ceiling-mount preset, leaving the fields it does not name
    /// untouched.
    pub fn preset_ceiling(config: &mut PresenceConfig)
        ensures
            *final(config) == PresenceConfig::spec_preset_ceiling(*old(config)),
    {
        config.set_range(4000, 7000);
        config.set_auto_profile(true);
        config.set_auto_step_length(true);
        config.set_sweeps_per_frame(16);
        config.set_hwaas(32);

        config.set_frame_rate(5000);
        config.set_inter_frame_idle_state(RadarIdleState::Ready);

        config.set_intra_detection(true);
        config.set_intra_detection_threshold(130);
        config.set_intra_frame_time_const(150);
        config.set_intra_output_time_const(300);

        config.set_inter_detection(true);
        config.set_inter_detection_threshold(1000);
        config.set_inter_frame_fast_cutoff(6000);
        config.set_inter_frame_slow_cutoff(200);
        config.set_inter_frame_deviation_time_const(500);
        config.set_inter_output_time_const(2000);
        config.set_inter_phase_boost(true);
        config.set_inter_frame_presence_timeout(10);
    }
}

impl Default for PresenceConfig {
    /// The default configuration, [`PresenceConfig::spec_default`] exactly.
    fn default() -> (r: PresenceConfig)
        ensures
            r == PresenceConfig::spec_default(),
    {
        PresenceConfig {
            sensor_id: 1,
            start_mm: 300,
            end_mm: 2500,
            automatic_subsweeps: false,
            signal_quality_milli: 15000,
            inter_frame_idle_state: RadarIdleState::DeepSleep,
            sweeps_per_frame: 16,
            frame_rate_milli: 12000,
            frame_rate_app_driven: false,
            reset_filters_on_prepare: true,
            intra_detection: true,
            intra_detection_threshold_milli: 1300,
            intra_frame_time_const_milli: 150,
            intra_output_time_const_milli: 300,
            inter_detection: true,
            inter_detection_threshold_milli: 1000,
            inter_frame_deviation_time_const_milli: 500,
            inter_frame_fast_cutoff_milli: 6000,
            inter_frame_slow_cutoff_milli: 200,
            inter_output_time_const_milli: 2000,
            inter_frame_presence_timeout: 3,
            inter_phase_boost: false,
            auto_step_length: true,
            auto_profile: true,
            profile: RadarProfile::Profile4,
            hwaas: 32,
        }
    }
}

} // verus!
