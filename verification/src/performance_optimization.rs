//! The choice of codec settings for a session from what is known of the
//! network, the steps by which the quality follows the latency, and the
//! sharing out of bandwidth. Bit rates and bandwidths are in kilobits per
//! second.

use vstd::prelude::*;
use crate::keyed::KeyedList;

verus! {

/// The settings of a session's video codec.
#[derive(Debug, Clone, Copy, PartialEq, Eq, Structural)]
pub struct CodecConfig {
    pub codec_type: CodecType,
    /// From 1 to 100.
    pub quality: u8,
    pub bitrate: u32,
    /// Frames per second.
    pub framerate: u8,
    pub resolution: Resolution,
    pub hardware_acceleration: bool,
    pub low_latency_mode: bool,
    pub adaptive_quality: bool,
}

/// The codecs.
#[derive(Debug, Clone, Copy, PartialEq, Eq, Structural)]
pub enum CodecType {
    H264,
    H265,
    VP8,
    VP9,
    AV1,
    MJPEG,
}

/// The size of the picture, in pixels.
#[derive(Debug, Clone, Copy, PartialEq, Eq, Structural)]
pub struct Resolution {
    pub width: u32,
    pub height: u32,
}

/// How congestion is answered.
#[derive(Debug, Clone, Copy, PartialEq, Eq, Structural)]
pub enum CongestionControl {
    BBR,
    Cubic,
    Reno,
    Vegas,
}

/// What is known of the network of a session: the bandwidth, and whether
/// the latency and the loss of packets lie over their limits.
#[derive(Debug, Clone, Copy, PartialEq, Eq, Structural)]
pub struct NetworkAssessment {
    pub bandwidth_kbps: u32,
    /// The latency is over 100 milliseconds.
    pub high_latency: bool,
    /// More than one packet in twenty is lost.
    pub high_packet_loss: bool,
}

/// How the latency of a session stands to its target.
#[derive(Debug, Clone, Copy, PartialEq, Eq, Structural)]
pub enum LatencyTrend {
    /// The mean latency is more than half again over the target.
    TooHigh,
    /// The mean latency is under seven tenths of the target, and hardly a
    /// packet is lost.
    Comfortable,
    /// Neither.
    Steady,
}

/// The state by which the quality of a session follows its latency.
#[derive(Debug, Clone, Copy, PartialEq, Eq, Structural)]
pub struct AdaptiveQualityController {
    pub target_framerate: u8,
    pub min_quality: u8,
    pub max_quality: u8,
    pub current_quality: u8,
    /// When the quality was last adjusted, in seconds of the clock that the
    /// adjustments are made by.
    pub adjustment_cooldown: u64,
}

/// The quality is adjusted at most once in this many seconds.
pub const ADJUSTMENT_COOLDOWN_SECS: u64 = 2;

/// The bandwidth that is taken as available, in kilobits per second.
pub const DEFAULT_BANDWIDTH_KBPS: u64 = 10000;

/// The memory that is reported as used, in bytes.
pub const REPORTED_MEMORY_BYTES: u64 = 536870912;

/// The settings for hardware encoding on a fast network.
pub open spec fn high_performance_config() -> CodecConfig {
    CodecConfig {
        codec_type: CodecType::H265,
        quality: 80,
        bitrate: 4000,
        framerate: 60,
        resolution: Resolution { width: 1920, height: 1080 },
        hardware_acceleration: true,
        low_latency_mode: false,
        adaptive_quality: true,
    }
}

/// The settings for a network of middling speed.
pub open spec fn medium_config(hardware_acceleration: bool) -> CodecConfig {
    CodecConfig {
        codec_type: CodecType::H264,
        quality: 70,
        bitrate: 2000,
        framerate: 30,
        resolution: Resolution { width: 1920, height: 1080 },
        hardware_acceleration,
        low_latency_mode: false,
        adaptive_quality: true,
    }
}

/// The settings for a slow network.
pub open spec fn low_bandwidth_config() -> CodecConfig {
    CodecConfig {
        codec_type: CodecType::H264,
        quality: 50,
        bitrate: 800,
        framerate: 24,
        resolution: Resolution { width: 1280, height: 720 },
        hardware_acceleration: false,
        low_latency_mode: true,
        adaptive_quality: true,
    }
}

/// The settings to start from, by the bandwidth.
pub open spec fn base_config(hardware_acceleration: bool, bandwidth_kbps: u32) -> CodecConfig {
    if hardware_acceleration && bandwidth_kbps > 2000 {
        high_performance_config()
    } else if bandwidth_kbps > 1000 {
        medium_config(hardware_acceleration)
    } else {
        low_bandwidth_config()
    }
}

/// The larger of two numbers.
pub open spec fn at_least(x: int, floor: int) -> int {
    if x >= floor {
        x
    } else {
        floor
    }
}

/// The smaller of two numbers.
pub open spec fn at_most(x: int, ceiling: int) -> int {
    if x <= ceiling {
        x
    } else {
        ceiling
    }
}

/// The settings after they were fitted to a high latency: low-latency
/// mode, and two thirds of the frame rate but no fewer than 15 frames.
pub open spec fn fitted_to_latency(c: CodecConfig) -> CodecConfig {
    CodecConfig {
        low_latency_mode: true,
        framerate: at_least(c.framerate * 2 / 3, 15) as u8,
        ..c
    }
}

/// The settings after they were fitted to a bandwidth under 1000: two
/// thirds of the quality but no less than 30, four fifths of the bandwidth
/// as bit rate, and the smaller picture under 500.
pub open spec fn fitted_to_bandwidth(c: CodecConfig, bandwidth_kbps: u32) -> CodecConfig {
    CodecConfig {
        quality: at_least(c.quality * 2 / 3, 30) as u8,
        bitrate: (bandwidth_kbps * 8 / 10) as u32,
        resolution: if bandwidth_kbps < 500 {
            Resolution { width: 1280, height: 720 }
        } else {
            c.resolution
        },
        ..c
    }
}

/// The settings for a session, from what is known of its network.
pub open spec fn optimal_config(hardware_acceleration: bool, n: NetworkAssessment) -> CodecConfig {
    let base = base_config(hardware_acceleration, n.bandwidth_kbps);
    let a = if n.high_latency {
        fitted_to_latency(base)
    } else {
        base
    };
    let b = if n.bandwidth_kbps < 1000 {
        fitted_to_bandwidth(a, n.bandwidth_kbps)
    } else {
        a
    };
    if n.high_packet_loss {
        CodecConfig { codec_type: CodecType::H264, ..b }
    } else {
        b
    }
}

/// The settings in low-latency mode: at most 30 frames, and nine tenths of
/// the quality but no less than 40.
pub open spec fn low_latency(c: CodecConfig) -> CodecConfig {
    CodecConfig {
        low_latency_mode: true,
        framerate: at_most(c.framerate as int, 30) as u8,
        quality: at_least(c.quality * 9 / 10, 40) as u8,
        ..c
    }
}

/// Whether the quality is stepped down: the latency is too high and the
/// quality stands over its floor.
pub open spec fn steps_down(k: AdaptiveQualityController, trend: LatencyTrend) -> bool {
    trend == LatencyTrend::TooHigh && k.current_quality > k.min_quality
}

/// Whether the quality is stepped up: the latency is comfortable and the
/// quality stands under its ceiling.
pub open spec fn steps_up(k: AdaptiveQualityController, trend: LatencyTrend) -> bool {
    trend == LatencyTrend::Comfortable && k.current_quality < k.max_quality
}

/// The quality after a step.
pub open spec fn stepped_quality(k: AdaptiveQualityController, trend: LatencyTrend) -> u8 {
    if steps_down(k, trend) {
        at_least(k.current_quality - 10, k.min_quality as int) as u8
    } else if steps_up(k, trend) {
        at_most(k.current_quality + 5, k.max_quality as int) as u8
    } else {
        k.current_quality
    }
}

/// The controller after a step at time `now`.
pub open spec fn stepped_controller(
    k: AdaptiveQualityController,
    trend: LatencyTrend,
    now: u64,
) -> AdaptiveQualityController {
    if steps_down(k, trend) || steps_up(k, trend) {
        AdaptiveQualityController {
            current_quality: stepped_quality(k, trend),
            adjustment_cooldown: now,
            ..k
        }
    } else {
        k
    }
}

/// The settings after a step of the controller: the new quality, and nine
/// tenths of the bit rate but no less than 500 on a step down, eleven
/// tenths but no more than 8000 on a step up.
pub open spec fn stepped_config(
    c: CodecConfig,
    k: AdaptiveQualityController,
    trend: LatencyTrend,
) -> CodecConfig {
    if steps_down(k, trend) {
        CodecConfig {
            quality: stepped_quality(k, trend),
            bitrate: at_least(c.bitrate * 9 / 10, 500) as u32,
            ..c
        }
    } else if steps_up(k, trend) {
        CodecConfig {
            quality: stepped_quality(k, trend),
            bitrate: at_most(c.bitrate * 11 / 10, 8000) as u32,
            ..c
        }
    } else {
        c
    }
}

/// The settings to start from, by the bandwidth.
pub fn get_base_codec_config(hardware_acceleration: bool, bandwidth_kbps: u32) -> (c: CodecConfig)
    ensures
        c == base_config(hardware_acceleration, bandwidth_kbps),
{
    if hardware_acceleration && bandwidth_kbps > 2000 {
        CodecConfig {
            codec_type: CodecType::H265,
            quality: 80,
            bitrate: 4000,
            framerate: 60,
            resolution: Resolution { width: 1920, height: 1080 },
            hardware_acceleration: true,
            low_latency_mode: false,
            adaptive_quality: true,
        }
    } else if bandwidth_kbps > 1000 {
        CodecConfig {
            codec_type: CodecType::H264,
            quality: 70,
            bitrate: 2000,
            framerate: 30,
            resolution: Resolution { width: 1920, height: 1080 },
            hardware_acceleration,
            low_latency_mode: false,
            adaptive_quality: true,
        }
    } else {
        CodecConfig {
            codec_type: CodecType::H264,
            quality: 50,
            bitrate: 800,
            framerate: 24,
            resolution: Resolution { width: 1280, height: 720 },
            hardware_acceleration: false,
            low_latency_mode: true,
            adaptive_quality: true,
        }
    }
}

/// The settings for a session, from what is known of its network.
pub fn optimal_codec_config(hardware_acceleration: bool, network: &NetworkAssessment) -> (c:
    CodecConfig)
    ensures
        c == optimal_config(hardware_acceleration, *network),
{
    let mut c = get_base_codec_config(hardware_acceleration, network.bandwidth_kbps);
    if network.high_latency {
        c.low_latency_mode = true;
        let slower = (c.framerate as u16 * 2 / 3) as u8;
        c.framerate = if slower >= 15 {
            slower
        } else {
            15
        };
    }
    if network.bandwidth_kbps < 1000 {
        let lower = (c.quality as u16 * 2 / 3) as u8;
        c.quality = if lower >= 30 {
            lower
        } else {
            30
        };
        c.bitrate = network.bandwidth_kbps * 8 / 10;
        if network.bandwidth_kbps < 500 {
            c.resolution = Resolution { width: 1280, height: 720 };
        }
    }
    if network.high_packet_loss {
        c.codec_type = CodecType::H264;
    }
    c
}

/// The settings in low-latency mode.
pub fn low_latency_config(c: &CodecConfig) -> (r: CodecConfig)
    ensures
        r == low_latency(*c),
{
    let lower = (c.quality as u16 * 9 / 10) as u8;
    CodecConfig {
        low_latency_mode: true,
        framerate: if c.framerate <= 30 {
            c.framerate
        } else {
            30
        },
        quality: if lower >= 40 {
            lower
        } else {
            40
        },
        ..*c
    }
}

impl AdaptiveQualityController {
    /// A controller that starts at a quality of 70, between 30 and 90.
    pub fn new(now: u64) -> (k: Self)
        ensures
            k == (AdaptiveQualityController {
                target_framerate: 30,
                min_quality: 30,
                max_quality: 90,
                current_quality: 70,
                adjustment_cooldown: now,
            }),
    {
        AdaptiveQualityController {
            target_framerate: 30,
            min_quality: 30,
            max_quality: 90,
            current_quality: 70,
            adjustment_cooldown: now,
        }
    }

    /// Whether the time for another adjustment has come at time `now`.
    pub fn cooled_down(&self, now: u64) -> (r: bool)
        ensures
            r == (now >= self.adjustment_cooldown && now - self.adjustment_cooldown
                > ADJUSTMENT_COOLDOWN_SECS),
    {
        now >= self.adjustment_cooldown && now - self.adjustment_cooldown
            > ADJUSTMENT_COOLDOWN_SECS
    }

    /// Takes one step with the quality at time `now`, and fits the settings
    /// to it.
    pub fn step(&mut self, config: &mut CodecConfig, trend: LatencyTrend, now: u64)
        ensures
            *final(self) == stepped_controller(*old(self), trend, now),
            *final(config) == stepped_config(*old(config), *old(self), trend),
    {
        match trend {
            LatencyTrend::TooHigh => {
                if self.current_quality > self.min_quality {
                    let lower = self.current_quality.saturating_sub(10);
                    self.current_quality = if lower >= self.min_quality {
                        lower
                    } else {
                        self.min_quality
                    };
                    config.quality = self.current_quality;
                    let rate = (config.bitrate as u64 * 9 / 10) as u32;
                    config.bitrate = if rate >= 500 {
                        rate
                    } else {
                        500
                    };
                    self.adjustment_cooldown = now;
                }
            },
            LatencyTrend::Comfortable => {
                if self.current_quality < self.max_quality {
                    let higher = self.current_quality as u16 + 5;
                    self.current_quality = if higher <= self.max_quality as u16 {
                        higher as u8
                    } else {
                        self.max_quality
                    };
                    config.quality = self.current_quality;
                    let rate = config.bitrate as u64 * 11 / 10;
                    config.bitrate = if rate <= 8000 {
                        rate as u32
                    } else {
                        8000
                    };
                    self.adjustment_cooldown = now;
                }
            },
            LatencyTrend::Steady => {},
        }
    }
}

/// The bandwidth that is there and the bandwidth that was given out.
#[derive(Debug, Clone, Copy, PartialEq, Eq, Structural)]
pub struct BandwidthManager {
    pub available_bandwidth: u64,
    pub used_bandwidth: u64,
    pub congestion_control: CongestionControl,
}

/// The bandwidth that a request gets: what it asks for, as far as the
/// bandwidth that is left goes.
pub open spec fn granted(available: u64, used: u64, requested_kbps: u32) -> u32 {
    let remaining = if available >= used {
        available - used
    } else {
        0
    };
    at_most(requested_kbps as int, remaining) as u32
}

impl BandwidthManager {
    /// A manager of the default bandwidth, of which nothing is given out.
    pub fn new() -> (m: Self)
        ensures
            m == (BandwidthManager {
                available_bandwidth: DEFAULT_BANDWIDTH_KBPS,
                used_bandwidth: 0,
                congestion_control: CongestionControl::BBR,
            }),
    {
        BandwidthManager {
            available_bandwidth: DEFAULT_BANDWIDTH_KBPS,
            used_bandwidth: 0,
            congestion_control: CongestionControl::BBR,
        }
    }

    /// The bandwidth that is there.
    pub fn estimate_available_bandwidth(&self) -> (kbps: u64)
        ensures
            kbps == self.available_bandwidth,
    {
        self.available_bandwidth
    }

    /// Gives out bandwidth to a session.
    pub fn allocate_bandwidth(&mut self, session_id: &str, requested_kbps: u32) -> (allocated: u32)
        ensures
            allocated == granted(
                old(self).available_bandwidth,
                old(self).used_bandwidth,
                requested_kbps,
            ),
            *final(self) == (BandwidthManager {
                used_bandwidth: (old(self).used_bandwidth + allocated) as u64,
                ..*old(self)
            }),
            old(self).used_bandwidth <= old(self).available_bandwidth ==> final(self).used_bandwidth <= final(self).available_bandwidth,
    {
        let remaining = self.available_bandwidth.saturating_sub(self.used_bandwidth);
        let allocated = if requested_kbps as u64 <= remaining {
            requested_kbps
        } else {
            remaining as u32
        };
        self.used_bandwidth = self.used_bandwidth + allocated as u64;
        allocated
    }
}

/// The codec settings and quality controllers of the sessions, and the
/// bandwidth.
pub struct PerformanceOptimizer {
    /// By session.
    pub codec_configs: KeyedList<CodecConfig>,
    /// By session.
    pub adaptive_controllers: KeyedList<AdaptiveQualityController>,
    pub bandwidth_manager: BandwidthManager,
    pub low_latency_enabled: bool,
    pub hardware_acceleration_available: bool,
}

impl PerformanceOptimizer {
    /// The tables are well formed.
    pub open spec fn wf(&self) -> bool {
        self.codec_configs.wf() && self.adaptive_controllers.wf()
    }

    /// Whether hardware encoding can be used.
    pub fn detect_hardware_acceleration() -> (r: bool)
        ensures
            r,
    {
        true
    }

    /// The memory that is used, in bytes.
    pub fn get_memory_usage(&self) -> (bytes: u64)
        ensures
            bytes == REPORTED_MEMORY_BYTES,
    {
        REPORTED_MEMORY_BYTES
    }

    /// An optimizer without sessions.
    pub fn new() -> (p: Self)
        ensures
            p.wf(),
            p.codec_configs@ == Map::<Seq<char>, CodecConfig>::empty(),
            p.adaptive_controllers@ == Map::<Seq<char>, AdaptiveQualityController>::empty(),
            p.bandwidth_manager == (BandwidthManager {
                available_bandwidth: DEFAULT_BANDWIDTH_KBPS,
                used_bandwidth: 0,
                congestion_control: CongestionControl::BBR,
            }),
            !p.low_latency_enabled,
            p.hardware_acceleration_available,
    {
        PerformanceOptimizer {
            codec_configs: KeyedList::new(),
            adaptive_controllers: KeyedList::new(),
            bandwidth_manager: BandwidthManager::new(),
            low_latency_enabled: false,
            hardware_acceleration_available: Self::detect_hardware_acceleration(),
        }
    }

    /// Puts the settings that every session can fall back on under the
    /// name `default`.
    pub fn load_default_codec_configs(&mut self)
        requires
            old(self).wf(),
        ensures
            final(self).wf(),
            *final(self) == (PerformanceOptimizer {
                codec_configs: final(self).codec_configs,
                ..*old(self)
            }),
            final(self).codec_configs@ == old(self).codec_configs@.insert(
                "default"@,
                medium_config(old(self).hardware_acceleration_available),
            ),
    {
        self.codec_configs.put(
            "default".to_string(),
            CodecConfig {
                codec_type: CodecType::H264,
                quality: 70,
                bitrate: 2000,
                framerate: 30,
                resolution: Resolution { width: 1920, height: 1080 },
                hardware_acceleration: self.hardware_acceleration_available,
                low_latency_mode: false,
                adaptive_quality: true,
            },
        );
    }

    /// Prepares a new optimizer for use.
    pub fn initialize(&mut self)
        requires
            old(self).wf(),
        ensures
            final(self).wf(),
            final(self).codec_configs@ == old(self).codec_configs@.insert(
                "default"@,
                medium_config(old(self).hardware_acceleration_available),
            ),
    {
        self.load_default_codec_configs();
    }

    /// The settings to start from, by the bandwidth.
    pub fn get_base_codec_config(&self, network: &NetworkAssessment) -> (c: CodecConfig)
        ensures
            c == base_config(self.hardware_acceleration_available, network.bandwidth_kbps),
    {
        get_base_codec_config(self.hardware_acceleration_available, network.bandwidth_kbps)
    }

    /// Chooses the settings for a session from what is known of its
    /// network, and keeps them.
    pub fn get_optimal_codec_config(&mut self, session_id: &str, network: &NetworkAssessment) -> (c:
        CodecConfig)
        requires
            old(self).wf(),
        ensures
            final(self).wf(),
            c == optimal_config(old(self).hardware_acceleration_available, *network),
            *final(self) == (PerformanceOptimizer {
                codec_configs: final(self).codec_configs,
                ..*old(self)
            }),
            final(self).codec_configs@ == old(self).codec_configs@.insert(session_id@, c),
    {
        let c = optimal_codec_config(self.hardware_acceleration_available, network);
        self.codec_configs.put(session_id.to_owned(), c);
        c
    }

    /// Switches low-latency mode on, and fits the settings of the session
    /// to it where the session has any.
    pub fn enable_low_latency_mode(&mut self, session_id: &str)
        requires
            old(self).wf(),
        ensures
            final(self).wf(),
            *final(self) == (PerformanceOptimizer {
                codec_configs: final(self).codec_configs,
                low_latency_enabled: true,
                ..*old(self)
            }),
            final(self).codec_configs@ == if old(self).codec_configs@.dom().contains(session_id@) {
                old(self).codec_configs@.insert(
                    session_id@,
                    low_latency(old(self).codec_configs@[session_id@]),
                )
            } else {
                old(self).codec_configs@
            },
    {
        self.low_latency_enabled = true;
        match self.codec_configs.position(session_id) {
            Some(i) => {
                proof {
                    self.codec_configs.lemma_places();
                }
                let c = low_latency_config(self.codec_configs.value_at(i));
                self.codec_configs.set_at(i, c);
            },
            None => {},
        }
    }

    /// Switches low-latency mode off, for the optimizer and for the
    /// settings of the session where it has any.
    pub fn disable_low_latency_mode(&mut self, session_id: &str)
        requires
            old(self).wf(),
        ensures
            final(self).wf(),
            *final(self) == (PerformanceOptimizer {
                codec_configs: final(self).codec_configs,
                low_latency_enabled: false,
                ..*old(self)
            }),
            final(self).codec_configs@ == if old(self).codec_configs@.dom().contains(session_id@) {
                old(self).codec_configs@.insert(
                    session_id@,
                    CodecConfig {
                        low_latency_mode: false,
                        ..old(self).codec_configs@[session_id@]
                    },
                )
            } else {
                old(self).codec_configs@
            },
    {
        self.low_latency_enabled = false;
        match self.codec_configs.position(session_id) {
            Some(i) => {
                proof {
                    self.codec_configs.lemma_places();
                }
                let mut c = *self.codec_configs.value_at(i);
                c.low_latency_mode = false;
                self.codec_configs.set_at(i, c);
            },
            None => {},
        }
    }

    /// Lets the quality of a session follow its latency at time `now`. A
    /// session that has no controller yet gets a new one. The quality is
    /// stepped only where the last adjustment lies far enough back and the
    /// session has settings.
    pub fn update_adaptive_quality(&mut self, session_id: &str, trend: LatencyTrend, now: u64)
        requires
            old(self).wf(),
        ensures
            final(self).wf(),
            *final(self) == (PerformanceOptimizer {
                codec_configs: final(self).codec_configs,
                adaptive_controllers: final(self).adaptive_controllers,
                ..*old(self)
            }),
            ({
                let controllers = old(self).adaptive_controllers@;
                let configs = old(self).codec_configs@;
                let k = if controllers.dom().contains(session_id@) {
                    controllers[session_id@]
                } else {
                    AdaptiveQualityController {
                        target_framerate: 30,
                        min_quality: 30,
                        max_quality: 90,
                        current_quality: 70,
                        adjustment_cooldown: now,
                    }
                };
                let due = now >= k.adjustment_cooldown && now - k.adjustment_cooldown
                    > ADJUSTMENT_COOLDOWN_SECS && configs.dom().contains(session_id@);
                &&& final(self).adaptive_controllers@ == controllers.insert(
                    session_id@,
                    if due {
                        stepped_controller(k, trend, now)
                    } else {
                        k
                    },
                )
                &&& final(self).codec_configs@ == if due {
                    configs.insert(session_id@, stepped_config(configs[session_id@], k, trend))
                } else {
                    configs
                }
            }),
    {
        let mut k = match self.adaptive_controllers.get(session_id) {
            Some(k) => *k,
            None => AdaptiveQualityController::new(now),
        };
        if k.cooled_down(now) {
            match self.codec_configs.position(session_id) {
                Some(i) => {
                    proof {
                        self.codec_configs.lemma_places();
                    }
                    let mut c = *self.codec_configs.value_at(i);
                    k.step(&mut c, trend, now);
                    self.codec_configs.set_at(i, c);
                },
                None => {},
            }
        }
        self.adaptive_controllers.put(session_id.to_owned(), k);
    }

    /// The bandwidth that is there.
    pub fn estimate_bandwidth(&self) -> (kbps: u64)
        ensures
            kbps == self.bandwidth_manager.available_bandwidth,
    {
        self.bandwidth_manager.estimate_available_bandwidth()
    }

    /// Gives out bandwidth to a session.
    pub fn allocate_bandwidth(&mut self, session_id: &str, requested_kbps: u32) -> (allocated: u32)
        ensures
            allocated == granted(
                old(self).bandwidth_manager.available_bandwidth,
                old(self).bandwidth_manager.used_bandwidth,
                requested_kbps,
            ),
            *final(self) == (PerformanceOptimizer {
                bandwidth_manager: BandwidthManager {
                    used_bandwidth: (old(self).bandwidth_manager.used_bandwidth + allocated) as u64,
                    ..old(self).bandwidth_manager
                },
                ..*old(self)
            }),
    {
        self.bandwidth_manager.allocate_bandwidth(session_id, requested_kbps)
    }
}

} // verus!
