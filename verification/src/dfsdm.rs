//! Digital filter for sigma-delta modulators (DFSDM).
//!
//! The driver works on an image of the register block: the fields that it
//! reads and writes, by name, as plain values. The platform layer loads the
//! image from the peripheral and stores it back.

use vstd::prelude::*;

verus! {

/// A digital filter of the peripheral.
#[derive(Clone, Copy, Debug, PartialEq, Eq, Structural)]
pub enum Filter {
    F0,
    F1,
    F2,
    F3,
}

/// An input channel of the peripheral.
#[derive(Clone, Copy, Debug, PartialEq, Eq, Structural)]
pub enum DfsdmChannel {
    C0,
    C1,
    C2,
    C3,
    C4,
    C5,
    C6,
    C7,
}

impl DfsdmChannel {
    /// The channel's number.
    pub open spec fn number(self) -> u8 {
        match self {
            DfsdmChannel::C0 => 0,
            DfsdmChannel::C1 => 1,
            DfsdmChannel::C2 => 2,
            DfsdmChannel::C3 => 3,
            DfsdmChannel::C4 => 4,
            DfsdmChannel::C5 => 5,
            DfsdmChannel::C6 => 6,
            DfsdmChannel::C7 => 7,
        }
    }

    /// The channel before this one, the last before the first.
    pub open spec fn previous(self) -> DfsdmChannel {
        match self {
            DfsdmChannel::C0 => DfsdmChannel::C7,
            DfsdmChannel::C1 => DfsdmChannel::C0,
            DfsdmChannel::C2 => DfsdmChannel::C1,
            DfsdmChannel::C3 => DfsdmChannel::C2,
            DfsdmChannel::C4 => DfsdmChannel::C3,
            DfsdmChannel::C5 => DfsdmChannel::C4,
            DfsdmChannel::C6 => DfsdmChannel::C5,
            DfsdmChannel::C7 => DfsdmChannel::C6,
        }
    }

    /// The channel's number, as the RCH field takes it.
    pub fn bits(self) -> (bits: u8)
        ensures
            bits == self.number(),
    {
        match self {
            DfsdmChannel::C0 => 0,
            DfsdmChannel::C1 => 1,
            DfsdmChannel::C2 => 2,
            DfsdmChannel::C3 => 3,
            DfsdmChannel::C4 => 4,
            DfsdmChannel::C5 => 5,
            DfsdmChannel::C6 => 6,
            DfsdmChannel::C7 => 7,
        }
    }

    /// The channel before this one, the last before the first.
    pub fn before(self) -> (channel: DfsdmChannel)
        ensures
            channel == self.previous(),
    {
        match self {
            DfsdmChannel::C0 => DfsdmChannel::C7,
            DfsdmChannel::C1 => DfsdmChannel::C0,
            DfsdmChannel::C2 => DfsdmChannel::C1,
            DfsdmChannel::C3 => DfsdmChannel::C2,
            DfsdmChannel::C4 => DfsdmChannel::C3,
            DfsdmChannel::C5 => DfsdmChannel::C4,
            DfsdmChannel::C6 => DfsdmChannel::C5,
            DfsdmChannel::C7 => DfsdmChannel::C6,
        }
    }
}

/// Sinc filter order. Sets FLTxFCR register, FORD field.
#[derive(Clone, Copy, Debug, PartialEq, Eq, Structural)]
pub enum FilterOrder {
    /// FastSinc filter type
    FastSinc,
    /// Sinc1 filter type
    Sinc1,
    /// Sinc2 filter type
    Sinc2,
    /// Sinc3 filter type
    Sinc3,
    /// Sinc4 filter type
    Sinc4,
    /// Sinc5 filter type
    Sinc5,
    /// Sinc6 filter type
    Sinc6,
    /// Sinc7 filter type
    Sinc7,
}

impl FilterOrder {
    /// The value of the FORD field for this order.
    pub open spec fn code(self) -> u8 {
        match self {
            FilterOrder::FastSinc => 0,
            FilterOrder::Sinc1 => 1,
            FilterOrder::Sinc2 => 2,
            FilterOrder::Sinc3 => 3,
            FilterOrder::Sinc4 => 4,
            FilterOrder::Sinc5 => 5,
            FilterOrder::Sinc6 => 6,
            FilterOrder::Sinc7 => 7,
        }
    }

    /// The value of the FORD field for this order.
    pub fn bits(self) -> (bits: u8)
        ensures
            bits == self.code(),
    {
        match self {
            FilterOrder::FastSinc => 0,
            FilterOrder::Sinc1 => 1,
            FilterOrder::Sinc2 => 2,
            FilterOrder::Sinc3 => 3,
            FilterOrder::Sinc4 => 4,
            FilterOrder::Sinc5 => 5,
            FilterOrder::Sinc6 => 6,
            FilterOrder::Sinc7 => 7,
        }
    }
}

/// Toggle clock source between system and audio clocks. Sets CH0CFGR1
/// register, CKOUTSRC field.
#[derive(Clone, Copy, Debug, PartialEq, Eq, Structural)]
pub enum DfsdmClockSrc {
    /// Source for output clock is from system clock
    SysClk,
    /// Source for output clock is from audio clock
    AudioClk,
}

/// SPI clock select for a given channel.
#[derive(Clone, Copy, Debug, PartialEq, Eq, Structural)]
pub enum SpiClock {
    /// Clock coming from external CKINy input
    External,
    /// Clock coming from internal CKOUT output
    Internal,
    /// Clock coming from internal CKOUT, sampling point on each second CKOUT
    /// falling edge
    InternalFalling,
    /// Clock coming from internal CKOUT, sampling point on each second CKOUT
    /// rising edge
    InternalRising,
}

impl SpiClock {
    /// The value of the SPICKSEL field for this clock.
    pub open spec fn code(self) -> u8 {
        match self {
            SpiClock::External => 0,
            SpiClock::Internal => 1,
            SpiClock::InternalFalling => 2,
            SpiClock::InternalRising => 3,
        }
    }

    /// The value of the SPICKSEL field for this clock.
    pub fn bits(self) -> (bits: u8)
        ensures
            bits == self.code(),
    {
        match self {
            SpiClock::External => 0,
            SpiClock::Internal => 1,
            SpiClock::InternalFalling => 2,
            SpiClock::InternalRising => 3,
        }
    }
}

/// The type of DFSDM interrupt to configure. Enabled in the FLTxCR2 register.
#[derive(Clone, Copy, Debug, PartialEq, Eq, Structural)]
pub enum DfsdmInterrupt {
    /// End of injected conversion. Enabled by JEOCIE field
    EndOfInjectedConversion,
    /// End of regular conversion. Enabled by REOCIE field
    EndOfConversion,
    /// Data overrun for injected conversions. Enabled by JOVRIE field
    DataOverrunInjected,
    /// Data overrun for regular conversions. Enabled by ROVRIE field
    DataOverrun,
    /// Analog watchdog. Enabled by AWDIE field
    AnalogWatchdog,
    /// Short-circuit detector. Enabled by SCDIE field
    ShortCircuit,
    /// Channel clock absence. Enabled by CKABIE field
    ChannelClockAbsense,
}

/// Set conversions to regular, continuous, or continuous fast mode. Sets
/// FLTxCR1 register, RCONT and FAST fields.
#[derive(Clone, Copy, Debug, PartialEq, Eq, Structural)]
pub enum Continuous {
    /// The regular channel is converted just once for each conversion request
    OneShot,
    /// The regular channel is converted repeatedly after each conversion request
    Continuous,
    /// Fast conversion mode enabled.
    ContinuousFastMode,
}

/// Configuration for the DFSDM peripheral.
#[derive(Clone, Copy, Debug, PartialEq, Eq, Structural)]
pub struct DfsdmConfig {
    /// Set the clock source to Sysclk, or Audio clock. Defaults to Audio clock.
    pub clock_src: DfsdmClockSrc,
    /// Sampling frequency. Used to adjust clock divider. Defaults to 48kHz.
    pub sampling_freq: u32,
    /// Sample as one-shot, continuous, or continuous fast-mode. Defaults to
    /// continuous fast mode.
    pub continuous: Continuous,
    /// Sinc filter order. Defaults to Sinc4.
    pub filter_order: FilterOrder,
    /// Sinc filter oversampling ratio. Also known as decimation ratio
    pub filter_oversampling_ratio: u16,
    /// Integrator oversampling ratio.
    pub integrator_oversampling_ratio: u8,
    /// The number of right bit shifts applied to each conversion result, to
    /// have it aligned to a 24-bit value.
    pub right_shift_bits: u8,
    /// SPI clock select for channel y. Ie internal or external.
    pub spi_clock: SpiClock,
}

impl Default for DfsdmConfig {
    fn default() -> (config: Self)
        ensures
            config == (DfsdmConfig {
                clock_src: DfsdmClockSrc::AudioClk,
                sampling_freq: 48_000,
                continuous: Continuous::ContinuousFastMode,
                filter_order: FilterOrder::Sinc4,
                filter_oversampling_ratio: 64,
                integrator_oversampling_ratio: 1,
                right_shift_bits: 0x02,
                spi_clock: SpiClock::Internal,
            }),
    {
        Self {
            clock_src: DfsdmClockSrc::AudioClk,
            sampling_freq: 48_000,
            continuous: Continuous::ContinuousFastMode,
            filter_order: FilterOrder::Sinc4,
            filter_oversampling_ratio: 64,
            integrator_oversampling_ratio: 1,
            right_shift_bits: 0x02,
            spi_clock: SpiClock::Internal,
        }
    }
}

/// The clock speeds that the peripheral can be fed from, in Hz.
#[derive(Clone, Copy, Debug, PartialEq, Eq, Structural)]
pub struct Clocks {
    pub sysclk: u32,
    pub sai1_speed: u32,
}

/// The fields of the two configuration registers of a channel.
#[derive(Clone, Copy, Debug, PartialEq, Eq, Structural)]
pub struct ChannelRegs {
    /// Global enable of the peripheral; in channel 0 only.
    pub dfsdmen: bool,
    /// Output clock source; in channel 0 only.
    pub ckoutsrc: bool,
    /// Output clock divider; in channel 0 only.
    pub ckoutdiv: u8,
    /// Channel inputs are taken from the following channel.
    pub chinsel: bool,
    /// Serial interface type.
    pub sitp: u8,
    /// SPI clock select.
    pub spicksel: u8,
    /// Channel enable.
    pub chen: bool,
    /// Data right bit-shift.
    pub dtrbs: u8,
}

/// The fields of the registers of a filter.
#[derive(Clone, Copy, Debug, PartialEq, Eq, Structural)]
pub struct FilterRegs {
    /// Sinc filter order.
    pub ford: u8,
    /// Sinc filter oversampling ratio, less one.
    pub fosr: u16,
    /// Integrator oversampling ratio, less one.
    pub iosr: u8,
    /// Continuous mode for regular conversions.
    pub rcont: bool,
    /// Fast conversion mode.
    pub fast: bool,
    /// Regular channel selection.
    pub rch: u8,
    /// Filter enable.
    pub dfen: bool,
    /// Software start of a regular conversion.
    pub rswstart: bool,
    /// Software start of an injected conversion.
    pub jswstart: bool,
    /// DMA for regular conversions.
    pub rdmaen: bool,
    pub jeocie: bool,
    pub reocie: bool,
    pub jovrie: bool,
    pub rovrie: bool,
    pub awdie: bool,
    pub scdie: bool,
    pub ckabie: bool,
    /// Regular conversion data.
    pub rdata: u32,
    /// Injected conversion data.
    pub jdata: u32,
}

/// An image of the register block.
#[derive(Clone, Copy, Debug, PartialEq, Eq, Structural)]
pub struct DfsdmRegs {
    pub ch0: ChannelRegs,
    pub ch1: ChannelRegs,
    pub ch2: ChannelRegs,
    pub ch3: ChannelRegs,
    pub ch4: ChannelRegs,
    pub ch5: ChannelRegs,
    pub ch6: ChannelRegs,
    pub ch7: ChannelRegs,
    pub flt0: FilterRegs,
    pub flt1: FilterRegs,
    pub flt2: FilterRegs,
    pub flt3: FilterRegs,
}

impl ChannelRegs {
    /// The registers of a channel that has been enabled under a configuration.
    pub open spec fn enabled(self, config: DfsdmConfig) -> ChannelRegs {
        ChannelRegs {
            spicksel: config.spi_clock.code(),
            chen: true,
            dtrbs: config.right_shift_bits,
            ..self
        }
    }

    /// The registers of a channel that takes a microphone's signal from the
    /// pins of `following` (its own, or those of the following channel) and
    /// strobes it on the given edge.
    pub open spec fn listening(self, following: bool, sitp: u8) -> ChannelRegs {
        ChannelRegs { chinsel: following, sitp, ..self }
    }
}

impl ChannelRegs {
    /// Enable the channel under a configuration.
    pub fn enable(self, config: &DfsdmConfig) -> (regs: ChannelRegs)
        ensures
            regs == self.enabled(*config),
    {
        ChannelRegs {
            spicksel: config.spi_clock.bits(),
            chen: true,
            dtrbs: config.right_shift_bits,
            ..self
        }
    }

    /// Take a microphone's signal from the channel's own pins or from those
    /// of the following channel, and strobe it on the given edge.
    pub fn listen(self, following: bool, sitp: u8) -> (regs: ChannelRegs)
        ensures
            regs == self.listening(following, sitp),
    {
        ChannelRegs { chinsel: following, sitp, ..self }
    }
}

impl FilterRegs {
    /// Configure and enable the filter for a channel.
    pub fn enable(self, config: &DfsdmConfig, channel: DfsdmChannel) -> (regs: FilterRegs)
        requires
            ratios_valid(*config),
        ensures
            regs == self.enabled(*config, channel),
    {
        FilterRegs {
            ford: config.filter_order.bits(),
            fosr: config.filter_oversampling_ratio - 1,
            iosr: config.integrator_oversampling_ratio - 1,
            rcont: !matches!(config.continuous, Continuous::OneShot),
            fast: matches!(config.continuous, Continuous::ContinuousFastMode),
            rch: channel.bits(),
            dfen: true,
            ..self
        }
    }

    /// Enable one more interrupt.
    pub fn interrupt(self, interrupt: DfsdmInterrupt) -> (regs: FilterRegs)
        ensures
            regs == self.interrupting(interrupt),
    {
        match interrupt {
            DfsdmInterrupt::EndOfInjectedConversion => FilterRegs { jeocie: true, ..self },
            DfsdmInterrupt::EndOfConversion => FilterRegs { reocie: true, ..self },
            DfsdmInterrupt::DataOverrunInjected => FilterRegs { jovrie: true, ..self },
            DfsdmInterrupt::DataOverrun => FilterRegs { rovrie: true, ..self },
            DfsdmInterrupt::AnalogWatchdog => FilterRegs { awdie: true, ..self },
            DfsdmInterrupt::ShortCircuit => FilterRegs { scdie: true, ..self },
            DfsdmInterrupt::ChannelClockAbsense => FilterRegs { ckabie: true, ..self },
        }
    }

    /// The registers of a filter that has been configured and enabled for a
    /// channel. The two ratios must be at least 1.
    pub open spec fn enabled(self, config: DfsdmConfig, channel: DfsdmChannel) -> FilterRegs {
        FilterRegs {
            ford: config.filter_order.code(),
            fosr: (config.filter_oversampling_ratio - 1) as u16,
            iosr: (config.integrator_oversampling_ratio - 1) as u8,
            rcont: config.continuous != Continuous::OneShot,
            fast: config.continuous == Continuous::ContinuousFastMode,
            rch: channel.number(),
            dfen: true,
            ..self
        }
    }

    /// The registers of a filter with one more interrupt enabled.
    pub open spec fn interrupting(self, interrupt: DfsdmInterrupt) -> FilterRegs {
        match interrupt {
            DfsdmInterrupt::EndOfInjectedConversion => FilterRegs { jeocie: true, ..self },
            DfsdmInterrupt::EndOfConversion => FilterRegs { reocie: true, ..self },
            DfsdmInterrupt::DataOverrunInjected => FilterRegs { jovrie: true, ..self },
            DfsdmInterrupt::DataOverrun => FilterRegs { rovrie: true, ..self },
            DfsdmInterrupt::AnalogWatchdog => FilterRegs { awdie: true, ..self },
            DfsdmInterrupt::ShortCircuit => FilterRegs { scdie: true, ..self },
            DfsdmInterrupt::ChannelClockAbsense => FilterRegs { ckabie: true, ..self },
        }
    }
}

impl DfsdmRegs {
    /// The registers of a channel.
    pub open spec fn channel(self, channel: DfsdmChannel) -> ChannelRegs {
        match channel {
            DfsdmChannel::C0 => self.ch0,
            DfsdmChannel::C1 => self.ch1,
            DfsdmChannel::C2 => self.ch2,
            DfsdmChannel::C3 => self.ch3,
            DfsdmChannel::C4 => self.ch4,
            DfsdmChannel::C5 => self.ch5,
            DfsdmChannel::C6 => self.ch6,
            DfsdmChannel::C7 => self.ch7,
        }
    }

    /// The image with the registers of one channel replaced.
    pub open spec fn with_channel(self, channel: DfsdmChannel, regs: ChannelRegs) -> DfsdmRegs {
        match channel {
            DfsdmChannel::C0 => DfsdmRegs { ch0: regs, ..self },
            DfsdmChannel::C1 => DfsdmRegs { ch1: regs, ..self },
            DfsdmChannel::C2 => DfsdmRegs { ch2: regs, ..self },
            DfsdmChannel::C3 => DfsdmRegs { ch3: regs, ..self },
            DfsdmChannel::C4 => DfsdmRegs { ch4: regs, ..self },
            DfsdmChannel::C5 => DfsdmRegs { ch5: regs, ..self },
            DfsdmChannel::C6 => DfsdmRegs { ch6: regs, ..self },
            DfsdmChannel::C7 => DfsdmRegs { ch7: regs, ..self },
        }
    }

    /// The registers of a filter.
    pub open spec fn filter(self, filter: Filter) -> FilterRegs {
        match filter {
            Filter::F0 => self.flt0,
            Filter::F1 => self.flt1,
            Filter::F2 => self.flt2,
            Filter::F3 => self.flt3,
        }
    }

    /// The image with the registers of one filter replaced.
    pub open spec fn with_filter(self, filter: Filter, regs: FilterRegs) -> DfsdmRegs {
        match filter {
            Filter::F0 => DfsdmRegs { flt0: regs, ..self },
            Filter::F1 => DfsdmRegs { flt1: regs, ..self },
            Filter::F2 => DfsdmRegs { flt2: regs, ..self },
            Filter::F3 => DfsdmRegs { flt3: regs, ..self },
        }
    }

    /// The registers of a channel.
    pub fn get_channel(&self, channel: DfsdmChannel) -> (regs: ChannelRegs)
        ensures
            regs == self.channel(channel),
    {
        match channel {
            DfsdmChannel::C0 => self.ch0,
            DfsdmChannel::C1 => self.ch1,
            DfsdmChannel::C2 => self.ch2,
            DfsdmChannel::C3 => self.ch3,
            DfsdmChannel::C4 => self.ch4,
            DfsdmChannel::C5 => self.ch5,
            DfsdmChannel::C6 => self.ch6,
            DfsdmChannel::C7 => self.ch7,
        }
    }

    /// Replace the registers of a channel.
    pub fn set_channel(&mut self, channel: DfsdmChannel, regs: ChannelRegs)
        ensures
            *final(self) == old(self).with_channel(channel, regs),
    {
        match channel {
            DfsdmChannel::C0 => self.ch0 = regs,
            DfsdmChannel::C1 => self.ch1 = regs,
            DfsdmChannel::C2 => self.ch2 = regs,
            DfsdmChannel::C3 => self.ch3 = regs,
            DfsdmChannel::C4 => self.ch4 = regs,
            DfsdmChannel::C5 => self.ch5 = regs,
            DfsdmChannel::C6 => self.ch6 = regs,
            DfsdmChannel::C7 => self.ch7 = regs,
        }
    }

    /// The registers of a filter.
    pub fn get_filter(&self, filter: Filter) -> (regs: FilterRegs)
        ensures
            regs == self.filter(filter),
    {
        match filter {
            Filter::F0 => self.flt0,
            Filter::F1 => self.flt1,
            Filter::F2 => self.flt2,
            Filter::F3 => self.flt3,
        }
    }

    /// Replace the registers of a filter.
    pub fn set_filter(&mut self, filter: Filter, regs: FilterRegs)
        ensures
            *final(self) == old(self).with_filter(filter, regs),
    {
        match filter {
            Filter::F0 => self.flt0 = regs,
            Filter::F1 => self.flt1 = regs,
            Filter::F2 => self.flt2 = regs,
            Filter::F3 => self.flt3 = regs,
        }
    }
}

/// The speed of the clock that a configuration selects.
pub open spec fn clock_speed(config: DfsdmConfig, clocks: Clocks) -> u32 {
    match config.clock_src {
        DfsdmClockSrc::SysClk => clocks.sysclk,
        DfsdmClockSrc::AudioClk => clocks.sai1_speed,
    }
}

/// The samples that the filter takes in a second: the sampling frequency
/// times the oversampling ratio.
pub open spec fn bit_rate(config: DfsdmConfig) -> int {
    config.sampling_freq * config.filter_oversampling_ratio
}

/// The output clock divider: the clock speed by the bit rate, rounded down.
pub open spec fn clock_divider(config: DfsdmConfig, clocks: Clocks) -> int {
    clock_speed(config, clocks) as int / bit_rate(config)
}

/// Whether the divider can be set up: the bit rate is not zero and fits 32
/// bits, the divider is at least 2, and its low eight bits are not all zero.
pub open spec fn divider_valid(config: DfsdmConfig, clocks: Clocks) -> bool {
    &&& 0 < bit_rate(config) <= u32::MAX
    &&& clock_divider(config, clocks) >= 2
    &&& clock_divider(config, clocks) % 256 != 0
}

/// Whether a filter can be enabled under the configuration: the oversampling
/// ratio is from 1 to 1023, and the integrator's is at least 1.
pub open spec fn ratios_valid(config: DfsdmConfig) -> bool {
    &&& 1 <= config.filter_oversampling_ratio <= 1_023
    &&& 1 <= config.integrator_oversampling_ratio
}

/// Represents the Digital filter for sigma delta modulators (DFSDM)
/// peripheral, for interfacing with external sigma-delta modulators.
pub struct Dfsdm {
    pub regs: DfsdmRegs,
    pub config: DfsdmConfig,
}

impl Dfsdm {
    /// Initialize a DFSDM peripheral whose clock has been enabled: set the
    /// output clock's source, and its divider to the low eight bits of the
    /// clock divider, less one.
    pub fn new(regs: DfsdmRegs, config: DfsdmConfig, clock_cfg: &Clocks) -> (dfsdm: Self)
        requires
            divider_valid(config, *clock_cfg),
        ensures
            dfsdm.config == config,
            dfsdm.regs == (DfsdmRegs {
                ch0: ChannelRegs {
                    ckoutsrc: config.clock_src == DfsdmClockSrc::AudioClk,
                    ckoutdiv: (clock_divider(config, *clock_cfg) % 256 - 1) as u8,
                    ..regs.ch0
                },
                ..regs
            }),
    {
        let clock_speed = match config.clock_src {
            DfsdmClockSrc::SysClk => clock_cfg.sysclk,
            DfsdmClockSrc::AudioClk => clock_cfg.sai1_speed,
        };
        assert(config.sampling_freq * config.filter_oversampling_ratio == bit_rate(config));
        let divider: u32 = clock_speed / (config.sampling_freq
            * config.filter_oversampling_ratio as u32);
        let low: u8 = (divider % 256) as u8;
        let mut regs = regs;
        regs.ch0.ckoutsrc = matches!(config.clock_src, DfsdmClockSrc::AudioClk);
        regs.ch0.ckoutdiv = low - 1;
        Self { regs, config }
    }

    /// Enables the DFSDM peripheral: sets DFSDMEN in the CH0CFGR1 register.
    pub fn enable(&mut self)
        ensures
            final(self).config == old(self).config,
            final(self).regs == (DfsdmRegs {
                ch0: ChannelRegs { dfsdmen: true, ..old(self).regs.ch0 },
                ..old(self).regs
            }),
    {
        self.regs.ch0.dfsdmen = true;
    }

    /// Disables the DFSDM peripheral: clears DFSDMEN in the CH0CFGR1
    /// register.
    pub fn disable(&mut self)
        ensures
            final(self).config == old(self).config,
            final(self).regs == (DfsdmRegs {
                ch0: ChannelRegs { dfsdmen: false, ..old(self).regs.ch0 },
                ..old(self).regs
            }),
    {
        self.regs.ch0.dfsdmen = false;
    }

    /// Configures and enables the DFSDM filter for a given channel, and
    /// enables that channel.
    pub fn enable_filter(&mut self, filter: Filter, channel: DfsdmChannel)
        requires
            ratios_valid(old(self).config),
        ensures
            final(self).config == old(self).config,
            final(self).regs == ({
                let config = old(self).config;
                let filtered = old(self).regs.with_filter(
                    filter,
                    old(self).regs.filter(filter).enabled(config, channel),
                );
                filtered.with_channel(channel, filtered.channel(channel).enabled(config))
            }),
    {
        let flt = self.regs.get_filter(filter).enable(&self.config, channel);
        self.regs.set_filter(filter, flt);
        let ch = self.regs.get_channel(channel).enable(&self.config);
        self.regs.set_channel(channel, ch);
    }

    /// Disables a filter: clears DFEN in its FLTxCR1 register.
    pub fn disable_filter(&mut self, channel: Filter)
        ensures
            final(self).config == old(self).config,
            final(self).regs == old(self).regs.with_filter(
                channel,
                FilterRegs { dfen: false, ..old(self).regs.filter(channel) },
            ),
    {
        let flt = FilterRegs { dfen: false, ..self.regs.get_filter(channel) };
        self.regs.set_filter(channel, flt);
    }

    /// Configure for PDM microphone(s). The channel given, one of the first
    /// four, takes its own pins and strobes on the rising edge; the channel
    /// before it takes the pins of the channel given and strobes on the
    /// falling edge.
    pub fn setup_pdm_mics(&mut self, channel: DfsdmChannel)
        requires
            channel.number() <= 3,
        ensures
            final(self).config == old(self).config,
            final(self).regs == ({
                let own = old(self).regs.with_channel(
                    channel,
                    old(self).regs.channel(channel).listening(false, 0),
                );
                own.with_channel(
                    channel.previous(),
                    own.channel(channel.previous()).listening(true, 1),
                )
            }),
    {
        let own = self.regs.get_channel(channel).listen(false, 0);
        self.regs.set_channel(channel, own);
        let other = self.regs.get_channel(channel.before()).listen(true, 1);
        self.regs.set_channel(channel.before(), other);
    }

    /// Initiate a conversion: sets RSWSTART in the filter's FLTxCR1 register.
    pub fn start_conversion(&mut self, filter: Filter)
        ensures
            final(self).config == old(self).config,
            final(self).regs == old(self).regs.with_filter(
                filter,
                FilterRegs { rswstart: true, ..old(self).regs.filter(filter) },
            ),
    {
        let flt = FilterRegs { rswstart: true, ..self.regs.get_filter(filter) };
        self.regs.set_filter(filter, flt);
    }

    /// Initiate an injected conversion: sets JSWSTART in the filter's FLTxCR1
    /// register.
    pub fn start_injected_conversion(&mut self, filter: Filter)
        ensures
            final(self).config == old(self).config,
            final(self).regs == old(self).regs.with_filter(
                filter,
                FilterRegs { jswstart: true, ..old(self).regs.filter(filter) },
            ),
    {
        let flt = FilterRegs { jswstart: true, ..self.regs.get_filter(filter) };
        self.regs.set_filter(filter, flt);
    }

    /// Read regular conversion data from the FLTxRDATAR register. Suitable
    /// for use after a conversion is complete.
    pub fn read(&self, filter: Filter) -> (data: u32)
        ensures
            data == self.regs.filter(filter).rdata,
    {
        self.regs.get_filter(filter).rdata
    }

    /// Read injected conversion data from the FLTxJDATAR register. Suitable
    /// for use after a conversion is complete.
    pub fn read_injected(&self, filter: Filter) -> (data: u32)
        ensures
            data == self.regs.filter(filter).jdata,
    {
        self.regs.get_filter(filter).jdata
    }

    /// Prepare a filter for reading its regular conversions with DMA: sets
    /// RDMAEN in its FLTxCR1 register.
    pub fn read_dma(&mut self, filter: Filter)
        ensures
            final(self).config == old(self).config,
            final(self).regs == old(self).regs.with_filter(
                filter,
                FilterRegs { rdmaen: true, ..old(self).regs.filter(filter) },
            ),
    {
        let flt = FilterRegs { rdmaen: true, ..self.regs.get_filter(filter) };
        self.regs.set_filter(filter, flt);
    }

    /// Enable a specific type of interrupt on a filter.
    pub fn enable_interrupt(&mut self, interrupt_type: DfsdmInterrupt, channel: Filter)
        ensures
            final(self).config == old(self).config,
            final(self).regs == old(self).regs.with_filter(
                channel,
                old(self).regs.filter(channel).interrupting(interrupt_type),
            ),
    {
        let flt = self.regs.get_filter(channel).interrupt(interrupt_type);
        self.regs.set_filter(channel, flt);
    }

    /// Clears the interrupt pending flag for a specific type of interrupt.
    /// Nothing is written: the flags of the end of a conversion are cleared
    /// by reading the data register, and the others are left to the caller.
    pub fn clear_interrupt(&mut self, interrupt_type: DfsdmInterrupt, channel: Filter)
        ensures
            final(self).config == old(self).config,
            final(self).regs == old(self).regs,
    {
    }
}

} // verus!
