use stm32_lora_disco::antenna::AntennaMode;
use stm32_lora_disco::antenna::AntennaSwitches;
use stm32_lora_disco::antenna::OutputLine;

fn low() -> OutputLine {
    OutputLine { high: false }
}

fn switches_all_low() -> AntennaSwitches {
    AntennaSwitches::new(low(), low(), low())
}

fn asserted_count(sw: &AntennaSwitches) -> u32 {
    (sw.rx.high as u32) + (sw.tx_rfo.high as u32) + (sw.tx_boost.high as u32)
}

#[test]
fn transmit_asserts_only_boost_line() {
    let mut sw = switches_all_low();
    sw.set_tx();
    assert!(!sw.rx.high);
    assert!(!sw.tx_rfo.high);
    assert!(sw.tx_boost.high);
    assert_eq!(asserted_count(&sw), 1);
}

#[test]
fn receive_asserts_only_rx_line() {
    let mut sw = switches_all_low();
    sw.set_rx();
    assert!(sw.rx.high);
    assert!(!sw.tx_rfo.high);
    assert!(!sw.tx_boost.high);
    assert_eq!(asserted_count(&sw), 1);
}

#[test]
fn sleep_deasserts_all_lines() {
    let mut sw = switches_all_low();
    sw.set_tx();
    sw.set_sleep();
    assert!(!sw.rx.high);
    assert!(!sw.tx_rfo.high);
    assert!(!sw.tx_boost.high);
    assert_eq!(asserted_count(&sw), 0);
}

#[test]
fn every_transition_lands_on_target_pattern() {
    let modes = [
        AntennaMode::Transmit,
        AntennaMode::Receive,
        AntennaMode::Transmit,
        AntennaMode::Sleep,
        AntennaMode::Receive,
        AntennaMode::Sleep,
    ];
    let mut sw = switches_all_low();
    for mode in modes {
        sw.set_mode(mode);
        let expected = match mode {
            AntennaMode::Sleep => (false, false, false),
            AntennaMode::Transmit => (false, false, true),
            AntennaMode::Receive => (true, false, false),
        };
        assert_eq!((sw.rx.high, sw.tx_rfo.high, sw.tx_boost.high), expected);
        assert!(asserted_count(&sw) <= 1);
    }
}

#[test]
fn switching_between_every_pair_never_samples_two_lines() {
    let modes = [AntennaMode::Sleep, AntennaMode::Transmit, AntennaMode::Receive];
    for from in modes {
        for to in modes {
            let mut sw = switches_all_low();
            sw.set_mode(from);
            sw.set_mode(to);
            assert!(asserted_count(&sw) <= 1);
        }
    }
}

#[test]
fn output_line_follows_last_write() {
    let mut line = OutputLine { high: false };
    line.set_high();
    assert!(line.high);
    line.set_low();
    assert!(!line.high);
}
