//! The DFSDM driver on a register image.

use stm32_drivers::dfsdm::{
    ChannelRegs, Clocks, Continuous, Dfsdm, DfsdmChannel, DfsdmClockSrc, DfsdmConfig,
    DfsdmInterrupt, DfsdmRegs, Filter, FilterOrder, FilterRegs, SpiClock,
};

fn blank_channel() -> ChannelRegs {
    ChannelRegs {
        dfsdmen: false,
        ckoutsrc: false,
        ckoutdiv: 0,
        chinsel: false,
        sitp: 0,
        spicksel: 0,
        chen: false,
        dtrbs: 0,
    }
}

fn blank_filter() -> FilterRegs {
    FilterRegs {
        ford: 0,
        fosr: 0,
        iosr: 0,
        rcont: false,
        fast: false,
        rch: 0,
        dfen: false,
        rswstart: false,
        jswstart: false,
        rdmaen: false,
        jeocie: false,
        reocie: false,
        jovrie: false,
        rovrie: false,
        awdie: false,
        scdie: false,
        ckabie: false,
        rdata: 0,
        jdata: 0,
    }
}

fn blank() -> DfsdmRegs {
    DfsdmRegs {
        ch0: blank_channel(),
        ch1: blank_channel(),
        ch2: blank_channel(),
        ch3: blank_channel(),
        ch4: blank_channel(),
        ch5: blank_channel(),
        ch6: blank_channel(),
        ch7: blank_channel(),
        flt0: blank_filter(),
        flt1: blank_filter(),
        flt2: blank_filter(),
        flt3: blank_filter(),
    }
}

fn clocks() -> Clocks {
    Clocks { sysclk: 400_000_000, sai1_speed: 12_288_000 }
}

fn driver() -> Dfsdm {
    Dfsdm::new(blank(), DfsdmConfig::default(), &clocks())
}

#[test]
fn default_config_is_the_pdm_microphone_setup() {
    let config = DfsdmConfig::default();
    assert_eq!(config.clock_src, DfsdmClockSrc::AudioClk);
    assert_eq!(config.sampling_freq, 48_000);
    assert_eq!(config.continuous, Continuous::ContinuousFastMode);
    assert_eq!(config.filter_order, FilterOrder::Sinc4);
    assert_eq!(config.filter_oversampling_ratio, 64);
    assert_eq!(config.integrator_oversampling_ratio, 1);
    assert_eq!(config.right_shift_bits, 2);
    assert_eq!(config.spi_clock, SpiClock::Internal);
}

#[test]
fn new_sets_the_output_clock() {
    // 12_288_000 / (48_000 * 64) = 4
    let dfsdm = driver();
    let mut expected = blank();
    expected.ch0.ckoutsrc = true;
    expected.ch0.ckoutdiv = 3;
    assert_eq!(dfsdm.regs, expected);
    assert_eq!(dfsdm.config, DfsdmConfig::default());

    // 400_000_000 / (16_000 * 100) = 250
    let config = DfsdmConfig {
        clock_src: DfsdmClockSrc::SysClk,
        sampling_freq: 16_000,
        filter_oversampling_ratio: 100,
        ..DfsdmConfig::default()
    };
    let mut regs = blank();
    regs.ch0.ckoutsrc = true;
    regs.ch3.chen = true;
    let dfsdm = Dfsdm::new(regs, config, &clocks());
    let mut expected = regs;
    expected.ch0.ckoutsrc = false;
    expected.ch0.ckoutdiv = 249;
    assert_eq!(dfsdm.regs, expected);

    // The divider is rounded down, and only its low eight bits are kept:
    // 400_000_000 / (48_000 * 16) = 520, and 520 % 256 - 1 = 7.
    let config = DfsdmConfig {
        clock_src: DfsdmClockSrc::SysClk,
        filter_oversampling_ratio: 16,
        ..DfsdmConfig::default()
    };
    let dfsdm = Dfsdm::new(blank(), config, &clocks());
    assert_eq!(dfsdm.regs.ch0.ckoutdiv, 7);
    // The smallest divider that is accepted: 6_144_000 / 3_072_000 = 2.
    let slow = Clocks { sysclk: 0, sai1_speed: 6_144_000 };
    let dfsdm = Dfsdm::new(blank(), DfsdmConfig::default(), &slow);
    assert_eq!(dfsdm.regs.ch0.ckoutdiv, 1);
}

#[test]
fn enable_and_disable_toggle_the_global_bit() {
    let mut dfsdm = driver();
    let before = dfsdm.regs;
    dfsdm.enable();
    let mut expected = before;
    expected.ch0.dfsdmen = true;
    assert_eq!(dfsdm.regs, expected);
    dfsdm.enable();
    assert_eq!(dfsdm.regs, expected);
    dfsdm.disable();
    assert_eq!(dfsdm.regs, before);
}

#[test]
fn enable_filter_configures_filter_and_channel() {
    let mut dfsdm = driver();
    let before = dfsdm.regs;
    dfsdm.enable_filter(Filter::F1, DfsdmChannel::C5);
    let mut expected = before;
    expected.flt1.ford = 4;
    expected.flt1.fosr = 63;
    expected.flt1.iosr = 0;
    expected.flt1.rcont = true;
    expected.flt1.fast = true;
    expected.flt1.rch = 5;
    expected.flt1.dfen = true;
    expected.ch5.spicksel = 1;
    expected.ch5.chen = true;
    expected.ch5.dtrbs = 2;
    assert_eq!(dfsdm.regs, expected);
}

#[test]
fn enable_filter_follows_the_configuration() {
    let config = DfsdmConfig {
        continuous: Continuous::OneShot,
        filter_order: FilterOrder::Sinc7,
        filter_oversampling_ratio: 1_023,
        integrator_oversampling_ratio: 255,
        right_shift_bits: 31,
        spi_clock: SpiClock::InternalRising,
        sampling_freq: 1_000,
        ..DfsdmConfig::default()
    };
    let mut dfsdm = Dfsdm::new(blank(), config, &clocks());
    dfsdm.enable_filter(Filter::F3, DfsdmChannel::C0);
    assert_eq!(dfsdm.regs.flt3.ford, 7);
    assert_eq!(dfsdm.regs.flt3.fosr, 1_022);
    assert_eq!(dfsdm.regs.flt3.iosr, 254);
    assert!(!dfsdm.regs.flt3.rcont);
    assert!(!dfsdm.regs.flt3.fast);
    assert_eq!(dfsdm.regs.flt3.rch, 0);
    assert!(dfsdm.regs.flt3.dfen);
    assert_eq!(dfsdm.regs.ch0.spicksel, 3);
    assert!(dfsdm.regs.ch0.chen);
    assert_eq!(dfsdm.regs.ch0.dtrbs, 31);
    // What `new` wrote into channel 0 is still there.
    assert!(dfsdm.regs.ch0.ckoutsrc);

    let config = DfsdmConfig {
        continuous: Continuous::Continuous,
        filter_order: FilterOrder::FastSinc,
        filter_oversampling_ratio: 1,
        spi_clock: SpiClock::External,
        ..DfsdmConfig::default()
    };
    let mut dfsdm = Dfsdm::new(blank(), config, &clocks());
    dfsdm.enable_filter(Filter::F0, DfsdmChannel::C7);
    assert_eq!(dfsdm.regs.flt0.ford, 0);
    assert_eq!(dfsdm.regs.flt0.fosr, 0);
    assert!(dfsdm.regs.flt0.rcont);
    assert!(!dfsdm.regs.flt0.fast);
    assert_eq!(dfsdm.regs.flt0.rch, 7);
    assert_eq!(dfsdm.regs.ch7.spicksel, 0);
}

#[test]
fn codes_of_the_field_values() {
    let orders = [
        FilterOrder::FastSinc, FilterOrder::Sinc1, FilterOrder::Sinc2, FilterOrder::Sinc3,
        FilterOrder::Sinc4, FilterOrder::Sinc5, FilterOrder::Sinc6, FilterOrder::Sinc7,
    ];
    for (i, order) in orders.iter().enumerate() {
        assert_eq!(order.bits() as usize, i);
    }
    let channels = [
        DfsdmChannel::C0, DfsdmChannel::C1, DfsdmChannel::C2, DfsdmChannel::C3,
        DfsdmChannel::C4, DfsdmChannel::C5, DfsdmChannel::C6, DfsdmChannel::C7,
    ];
    for (i, channel) in channels.iter().enumerate() {
        assert_eq!(channel.bits() as usize, i);
        assert_eq!(channel.before(), channels[(i + 7) % 8]);
    }
    assert_eq!(SpiClock::External.bits(), 0);
    assert_eq!(SpiClock::Internal.bits(), 1);
    assert_eq!(SpiClock::InternalFalling.bits(), 2);
    assert_eq!(SpiClock::InternalRising.bits(), 3);
}

#[test]
fn disable_filter_clears_only_the_enable_bit() {
    let mut dfsdm = driver();
    dfsdm.enable_filter(Filter::F2, DfsdmChannel::C1);
    let enabled = dfsdm.regs;
    dfsdm.disable_filter(Filter::F0);
    assert_eq!(dfsdm.regs, enabled);
    dfsdm.disable_filter(Filter::F2);
    let mut expected = enabled;
    expected.flt2.dfen = false;
    assert_eq!(dfsdm.regs, expected);
}

#[test]
fn pdm_microphones_take_a_channel_and_the_one_before() {
    let pairs = [
        (DfsdmChannel::C0, DfsdmChannel::C7),
        (DfsdmChannel::C1, DfsdmChannel::C0),
        (DfsdmChannel::C2, DfsdmChannel::C1),
        (DfsdmChannel::C3, DfsdmChannel::C2),
    ];
    for (own, other) in pairs {
        let mut regs = blank();
        regs.ch0.chinsel = true;
        regs.ch1.chinsel = true;
        regs.ch2.chinsel = true;
        regs.ch3.chinsel = true;
        regs.ch0.sitp = 3;
        regs.ch1.sitp = 3;
        regs.ch2.sitp = 3;
        regs.ch3.sitp = 3;
        let mut dfsdm = Dfsdm::new(regs, DfsdmConfig::default(), &clocks());
        let before = dfsdm.regs;
        dfsdm.setup_pdm_mics(own);
        let mut expected = before;
        let mut left = expected.get_channel(own);
        left.chinsel = false;
        left.sitp = 0;
        expected.set_channel(own, left);
        let mut right = expected.get_channel(other);
        right.chinsel = true;
        right.sitp = 1;
        expected.set_channel(other, right);
        assert_eq!(dfsdm.regs, expected);
        assert!(!dfsdm.regs.get_channel(own).chinsel);
        assert_eq!(dfsdm.regs.get_channel(other).sitp, 1);
    }
}

#[test]
fn conversions_are_started_by_their_bits() {
    let mut dfsdm = driver();
    let before = dfsdm.regs;
    dfsdm.start_conversion(Filter::F0);
    let mut expected = before;
    expected.flt0.rswstart = true;
    assert_eq!(dfsdm.regs, expected);
    dfsdm.start_injected_conversion(Filter::F3);
    expected.flt3.jswstart = true;
    assert_eq!(dfsdm.regs, expected);
    dfsdm.read_dma(Filter::F2);
    expected.flt2.rdmaen = true;
    assert_eq!(dfsdm.regs, expected);
}

#[test]
fn read_returns_the_data_of_the_filter() {
    let mut regs = blank();
    regs.flt0.rdata = 0x00AB_CDEF;
    regs.flt1.rdata = 1;
    regs.flt2.rdata = 2;
    regs.flt3.rdata = 0x00FF_FFFF;
    regs.flt0.jdata = 10;
    regs.flt1.jdata = 11;
    regs.flt2.jdata = 12;
    regs.flt3.jdata = 13;
    let dfsdm = Dfsdm::new(regs, DfsdmConfig::default(), &clocks());
    assert_eq!(dfsdm.read(Filter::F0), 0x00AB_CDEF);
    assert_eq!(dfsdm.read(Filter::F1), 1);
    assert_eq!(dfsdm.read(Filter::F2), 2);
    assert_eq!(dfsdm.read(Filter::F3), 0x00FF_FFFF);
    assert_eq!(dfsdm.read_injected(Filter::F0), 10);
    assert_eq!(dfsdm.read_injected(Filter::F1), 11);
    assert_eq!(dfsdm.read_injected(Filter::F2), 12);
    assert_eq!(dfsdm.read_injected(Filter::F3), 13);
}

#[test]
fn each_interrupt_has_its_enable_bit() {
    let kinds = [
        DfsdmInterrupt::EndOfInjectedConversion,
        DfsdmInterrupt::EndOfConversion,
        DfsdmInterrupt::DataOverrunInjected,
        DfsdmInterrupt::DataOverrun,
        DfsdmInterrupt::AnalogWatchdog,
        DfsdmInterrupt::ShortCircuit,
        DfsdmInterrupt::ChannelClockAbsense,
    ];
    for (i, kind) in kinds.iter().enumerate() {
        let mut dfsdm = driver();
        let before = dfsdm.regs;
        dfsdm.enable_interrupt(*kind, Filter::F1);
        let f = dfsdm.regs.flt1;
        assert_eq!(
            [f.jeocie, f.reocie, f.jovrie, f.rovrie, f.awdie, f.scdie, f.ckabie],
            [i == 0, i == 1, i == 2, i == 3, i == 4, i == 5, i == 6]
        );
        let mut rest = dfsdm.regs;
        rest.flt1 = before.flt1;
        assert_eq!(rest, before);
        // Clearing writes nothing.
        let enabled = dfsdm.regs;
        dfsdm.clear_interrupt(*kind, Filter::F1);
        assert_eq!(dfsdm.regs, enabled);
    }
}

#[test]
fn registers_are_found_by_channel_and_filter() {
    let mut regs = blank();
    let channels = [
        DfsdmChannel::C0, DfsdmChannel::C1, DfsdmChannel::C2, DfsdmChannel::C3,
        DfsdmChannel::C4, DfsdmChannel::C5, DfsdmChannel::C6, DfsdmChannel::C7,
    ];
    for (i, channel) in channels.iter().enumerate() {
        let mut ch = regs.get_channel(*channel);
        ch.dtrbs = i as u8 + 1;
        regs.set_channel(*channel, ch);
    }
    assert_eq!(
        [
            regs.ch0.dtrbs, regs.ch1.dtrbs, regs.ch2.dtrbs, regs.ch3.dtrbs, regs.ch4.dtrbs,
            regs.ch5.dtrbs, regs.ch6.dtrbs, regs.ch7.dtrbs
        ],
        [1, 2, 3, 4, 5, 6, 7, 8]
    );
    for (i, filter) in [Filter::F0, Filter::F1, Filter::F2, Filter::F3].iter().enumerate() {
        let mut flt = regs.get_filter(*filter);
        flt.rch = i as u8 + 1;
        regs.set_filter(*filter, flt);
    }
    assert_eq!([regs.flt0.rch, regs.flt1.rch, regs.flt2.rch, regs.flt3.rch], [1, 2, 3, 4]);
}
