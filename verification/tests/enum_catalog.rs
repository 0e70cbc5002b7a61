use touch_pad::touch_pad_enum::{
    TouchPadChannel,
    TouchHighVoltage,
    TouchLowVoltage,
    TouchVoltageAttenuation,
    TouchCountSlope,
    TouchTieOption,
    TouchFSMMode,
    TouchTriggerMode,
    TouchTriggerSource,
    GPIOPort,
    GpioNum,
    GpioIntType,
    GpioMode,
    GpioPullup,
    GpioPulldown,
    GpioPullMode,
    GpioDriveCapability,
    GpioHysteresisControlMode,
    EspSleepExt1WakeupMode,
    EspSleepPdDomain,
    EspSleepPdOption,
    EspSleepWakeupCause,
    EspSleepMode,
};

fn touch_pad_channel_variants() -> Vec<TouchPadChannel> {
    vec![
        TouchPadChannel::Num0,
        TouchPadChannel::Num1,
        TouchPadChannel::Num2,
        TouchPadChannel::Num3,
        TouchPadChannel::Num4,
        TouchPadChannel::Num5,
        TouchPadChannel::Num6,
        TouchPadChannel::Num7,
        TouchPadChannel::Num8,
        TouchPadChannel::Num9,
        TouchPadChannel::Max,
    ]
}

#[test]
fn touch_pad_channel_codes_and_round_trip() {
    let expected: Vec<u32> = vec![0, 1, 2, 3, 4, 5, 6, 7, 8, 9, 10];
    let variants = touch_pad_channel_variants();
    assert_eq!(variants.len(), expected.len());
    for (v, code) in variants.iter().zip(expected.iter()) {
        assert_eq!(v.encode(), *code);
        assert_eq!(TouchPadChannel::decode(*code), Some(*v));
    }
}

#[test]
fn touch_pad_channel_codes_are_distinct() {
    let variants = touch_pad_channel_variants();
    for (i, a) in variants.iter().enumerate() {
        for b in variants.iter().skip(i + 1) {
            assert_ne!(a.encode(), b.encode());
        }
    }
}

fn touch_high_voltage_variants() -> Vec<TouchHighVoltage> {
    vec![
        TouchHighVoltage::Keep,
        TouchHighVoltage::V2_4,
        TouchHighVoltage::V2_5,
        TouchHighVoltage::V2_6,
        TouchHighVoltage::V2_7,
        TouchHighVoltage::Max,
    ]
}

#[test]
fn touch_high_voltage_codes_and_round_trip() {
    let expected: Vec<i32> = vec![-1, 0, 1, 2, 3, 4];
    let variants = touch_high_voltage_variants();
    assert_eq!(variants.len(), expected.len());
    for (v, code) in variants.iter().zip(expected.iter()) {
        assert_eq!(v.encode(), *code);
        assert_eq!(TouchHighVoltage::decode(*code), Some(*v));
    }
}

#[test]
fn touch_high_voltage_codes_are_distinct() {
    let variants = touch_high_voltage_variants();
    for (i, a) in variants.iter().enumerate() {
        for b in variants.iter().skip(i + 1) {
            assert_ne!(a.encode(), b.encode());
        }
    }
}

fn touch_low_voltage_variants() -> Vec<TouchLowVoltage> {
    vec![
        TouchLowVoltage::Keep,
        TouchLowVoltage::V0_5,
        TouchLowVoltage::V0_6,
        TouchLowVoltage::V0_7,
        TouchLowVoltage::V0_8,
        TouchLowVoltage::Max,
    ]
}

#[test]
fn touch_low_voltage_codes_and_round_trip() {
    let expected: Vec<i32> = vec![-1, 0, 1, 2, 3, 4];
    let variants = touch_low_voltage_variants();
    assert_eq!(variants.len(), expected.len());
    for (v, code) in variants.iter().zip(expected.iter()) {
        assert_eq!(v.encode(), *code);
        assert_eq!(TouchLowVoltage::decode(*code), Some(*v));
    }
}

#[test]
fn touch_low_voltage_codes_are_distinct() {
    let variants = touch_low_voltage_variants();
    for (i, a) in variants.iter().enumerate() {
        for b in variants.iter().skip(i + 1) {
            assert_ne!(a.encode(), b.encode());
        }
    }
}

fn touch_voltage_attenuation_variants() -> Vec<TouchVoltageAttenuation> {
    vec![
        TouchVoltageAttenuation::Keep,
        TouchVoltageAttenuation::V1_5,
        TouchVoltageAttenuation::V1_0,
        TouchVoltageAttenuation::V0_5,
        TouchVoltageAttenuation::V0_0,
        TouchVoltageAttenuation::Max,
    ]
}

#[test]
fn touch_voltage_attenuation_codes_and_round_trip() {
    let expected: Vec<i32> = vec![-1, 0, 1, 2, 3, 4];
    let variants = touch_voltage_attenuation_variants();
    assert_eq!(variants.len(), expected.len());
    for (v, code) in variants.iter().zip(expected.iter()) {
        assert_eq!(v.encode(), *code);
        assert_eq!(TouchVoltageAttenuation::decode(*code), Some(*v));
    }
}

#[test]
fn touch_voltage_attenuation_codes_are_distinct() {
    let variants = touch_voltage_attenuation_variants();
    for (i, a) in variants.iter().enumerate() {
        for b in variants.iter().skip(i + 1) {
            assert_ne!(a.encode(), b.encode());
        }
    }
}

fn touch_count_slope_variants() -> Vec<TouchCountSlope> {
    vec![
        TouchCountSlope::Slope0,
        TouchCountSlope::Slope1,
        TouchCountSlope::Slope2,
        TouchCountSlope::Slope3,
        TouchCountSlope::Slope4,
        TouchCountSlope::Slope5,
        TouchCountSlope::Slope6,
        TouchCountSlope::Slope7,
        TouchCountSlope::Max,
    ]
}

#[test]
fn touch_count_slope_codes_and_round_trip() {
    let expected: Vec<u32> = vec![0, 1, 2, 3, 4, 5, 6, 7, 8];
    let variants = touch_count_slope_variants();
    assert_eq!(variants.len(), expected.len());
    for (v, code) in variants.iter().zip(expected.iter()) {
        assert_eq!(v.encode(), *code);
        assert_eq!(TouchCountSlope::decode(*code), Some(*v));
    }
}

#[test]
fn touch_count_slope_codes_are_distinct() {
    let variants = touch_count_slope_variants();
    for (i, a) in variants.iter().enumerate() {
        for b in variants.iter().skip(i + 1) {
            assert_ne!(a.encode(), b.encode());
        }
    }
}

fn touch_tie_option_variants() -> Vec<TouchTieOption> {
    vec![
        TouchTieOption::Low,
        TouchTieOption::High,
        TouchTieOption::Max,
    ]
}

#[test]
fn touch_tie_option_codes_and_round_trip() {
    let expected: Vec<u32> = vec![0, 1, 2];
    let variants = touch_tie_option_variants();
    assert_eq!(variants.len(), expected.len());
    for (v, code) in variants.iter().zip(expected.iter()) {
        assert_eq!(v.encode(), *code);
        assert_eq!(TouchTieOption::decode(*code), Some(*v));
    }
}

#[test]
fn touch_tie_option_codes_are_distinct() {
    let variants = touch_tie_option_variants();
    for (i, a) in variants.iter().enumerate() {
        for b in variants.iter().skip(i + 1) {
            assert_ne!(a.encode(), b.encode());
        }
    }
}

fn touch_fsm_mode_variants() -> Vec<TouchFSMMode> {
    vec![
        TouchFSMMode::Timer,
        TouchFSMMode::SW,
        TouchFSMMode::Max,
    ]
}

#[test]
fn touch_fsm_mode_codes_and_round_trip() {
    let expected: Vec<u32> = vec![0, 1, 2];
    let variants = touch_fsm_mode_variants();
    assert_eq!(variants.len(), expected.len());
    for (v, code) in variants.iter().zip(expected.iter()) {
        assert_eq!(v.encode(), *code);
        assert_eq!(TouchFSMMode::decode(*code), Some(*v));
    }
}

#[test]
fn touch_fsm_mode_codes_are_distinct() {
    let variants = touch_fsm_mode_variants();
    for (i, a) in variants.iter().enumerate() {
        for b in variants.iter().skip(i + 1) {
            assert_ne!(a.encode(), b.encode());
        }
    }
}

fn touch_trigger_mode_variants() -> Vec<TouchTriggerMode> {
    vec![
        TouchTriggerMode::Below,
        TouchTriggerMode::Above,
        TouchTriggerMode::Max,
    ]
}

#[test]
fn touch_trigger_mode_codes_and_round_trip() {
    let expected: Vec<u32> = vec![0, 1, 2];
    let variants = touch_trigger_mode_variants();
    assert_eq!(variants.len(), expected.len());
    for (v, code) in variants.iter().zip(expected.iter()) {
        assert_eq!(v.encode(), *code);
        assert_eq!(TouchTriggerMode::decode(*code), Some(*v));
    }
}

#[test]
fn touch_trigger_mode_codes_are_distinct() {
    let variants = touch_trigger_mode_variants();
    for (i, a) in variants.iter().enumerate() {
        for b in variants.iter().skip(i + 1) {
            assert_ne!(a.encode(), b.encode());
        }
    }
}

fn touch_trigger_source_variants() -> Vec<TouchTriggerSource> {
    vec![
        TouchTriggerSource::Both,
        TouchTriggerSource::Set1,
        TouchTriggerSource::Max,
    ]
}

#[test]
fn touch_trigger_source_codes_and_round_trip() {
    let expected: Vec<u32> = vec![0, 1, 2];
    let variants = touch_trigger_source_variants();
    assert_eq!(variants.len(), expected.len());
    for (v, code) in variants.iter().zip(expected.iter()) {
        assert_eq!(v.encode(), *code);
        assert_eq!(TouchTriggerSource::decode(*code), Some(*v));
    }
}

#[test]
fn touch_trigger_source_codes_are_distinct() {
    let variants = touch_trigger_source_variants();
    for (i, a) in variants.iter().enumerate() {
        for b in variants.iter().skip(i + 1) {
            assert_ne!(a.encode(), b.encode());
        }
    }
}

fn gpio_port_variants() -> Vec<GPIOPort> {
    vec![
        GPIOPort::Port0,
        GPIOPort::Max,
    ]
}

#[test]
fn gpio_port_codes_and_round_trip() {
    let expected: Vec<u32> = vec![0, 1];
    let variants = gpio_port_variants();
    assert_eq!(variants.len(), expected.len());
    for (v, code) in variants.iter().zip(expected.iter()) {
        assert_eq!(v.encode(), *code);
        assert_eq!(GPIOPort::decode(*code), Some(*v));
    }
}

#[test]
fn gpio_port_codes_are_distinct() {
    let variants = gpio_port_variants();
    for (i, a) in variants.iter().enumerate() {
        for b in variants.iter().skip(i + 1) {
            assert_ne!(a.encode(), b.encode());
        }
    }
}

fn gpio_num_variants() -> Vec<GpioNum> {
    vec![
        GpioNum::GpioNumNc,
        GpioNum::GpioNum0,
        GpioNum::GpioNum1,
        GpioNum::GpioNum2,
        GpioNum::GpioNum3,
        GpioNum::GpioNum4,
        GpioNum::GpioNum5,
        GpioNum::GpioNum6,
        GpioNum::GpioNum7,
        GpioNum::GpioNum8,
        GpioNum::GpioNum9,
        GpioNum::GpioNum10,
        GpioNum::GpioNum11,
        GpioNum::GpioNum12,
        GpioNum::GpioNum13,
        GpioNum::GpioNum14,
        GpioNum::GpioNum15,
        GpioNum::GpioNum16,
        GpioNum::GpioNum17,
        GpioNum::GpioNum18,
        GpioNum::GpioNum19,
        GpioNum::GpioNum20,
        GpioNum::GpioNum21,
        GpioNum::GpioNum22,
        GpioNum::GpioNum23,
        GpioNum::GpioNum25,
        GpioNum::GpioNum26,
        GpioNum::GpioNum27,
        GpioNum::GpioNum28,
        GpioNum::GpioNum29,
        GpioNum::GpioNum30,
        GpioNum::GpioNum31,
        GpioNum::GpioNum32,
        GpioNum::GpioNum33,
        GpioNum::GpioNum34,
        GpioNum::GpioNum35,
        GpioNum::GpioNum36,
        GpioNum::GpioNum37,
        GpioNum::GpioNum38,
        GpioNum::GpioNum39,
        GpioNum::GpioNumMax,
    ]
}

#[test]
fn gpio_num_codes_and_round_trip() {
    let expected: Vec<i32> = vec![-1, 0, 1, 2, 3, 4, 5, 6, 7, 8, 9, 10, 11, 12, 13, 14, 15, 16, 17, 18, 19, 20, 21, 22, 23, 25, 26, 27, 28, 29, 30, 31, 32, 33, 34, 35, 36, 37, 38, 39, 40];
    let variants = gpio_num_variants();
    assert_eq!(variants.len(), expected.len());
    for (v, code) in variants.iter().zip(expected.iter()) {
        assert_eq!(v.encode(), *code);
        assert_eq!(GpioNum::decode(*code), Some(*v));
    }
}

#[test]
fn gpio_num_codes_are_distinct() {
    let variants = gpio_num_variants();
    for (i, a) in variants.iter().enumerate() {
        for b in variants.iter().skip(i + 1) {
            assert_ne!(a.encode(), b.encode());
        }
    }
}

fn gpio_int_type_variants() -> Vec<GpioIntType> {
    vec![
        GpioIntType::GpioIntrDisable,
        GpioIntType::GpioIntrPosedge,
        GpioIntType::GpioIntrNegedge,
        GpioIntType::GpioIntrAnyedge,
        GpioIntType::GpioIntrLowLevel,
        GpioIntType::GpioIntrHighLevel,
        GpioIntType::GpioIntrMax,
    ]
}

#[test]
fn gpio_int_type_codes_and_round_trip() {
    let expected: Vec<u32> = vec![0, 1, 2, 3, 4, 5, 6];
    let variants = gpio_int_type_variants();
    assert_eq!(variants.len(), expected.len());
    for (v, code) in variants.iter().zip(expected.iter()) {
        assert_eq!(v.encode(), *code);
        assert_eq!(GpioIntType::decode(*code), Some(*v));
    }
}

#[test]
fn gpio_int_type_codes_are_distinct() {
    let variants = gpio_int_type_variants();
    for (i, a) in variants.iter().enumerate() {
        for b in variants.iter().skip(i + 1) {
            assert_ne!(a.encode(), b.encode());
        }
    }
}

fn gpio_mode_variants() -> Vec<GpioMode> {
    vec![
        GpioMode::GpioModeDisable,
        GpioMode::GpioModeInput,
        GpioMode::GpioModeOutput,
        GpioMode::GpioModeOutputOd,
        GpioMode::GpioModeInputOutputOd,
        GpioMode::GpioModeInputOutput,
    ]
}

#[test]
fn gpio_mode_codes_and_round_trip() {
    let expected: Vec<u32> = vec![0, 1, 2, 6, 7, 3];
    let variants = gpio_mode_variants();
    assert_eq!(variants.len(), expected.len());
    for (v, code) in variants.iter().zip(expected.iter()) {
        assert_eq!(v.encode(), *code);
        assert_eq!(GpioMode::decode(*code), Some(*v));
    }
}

#[test]
fn gpio_mode_codes_are_distinct() {
    let variants = gpio_mode_variants();
    for (i, a) in variants.iter().enumerate() {
        for b in variants.iter().skip(i + 1) {
            assert_ne!(a.encode(), b.encode());
        }
    }
}

fn gpio_pullup_variants() -> Vec<GpioPullup> {
    vec![
        GpioPullup::GpioPullupDisable,
        GpioPullup::GpioPullupEnable,
    ]
}

#[test]
fn gpio_pullup_codes_and_round_trip() {
    let expected: Vec<u32> = vec![0, 1];
    let variants = gpio_pullup_variants();
    assert_eq!(variants.len(), expected.len());
    for (v, code) in variants.iter().zip(expected.iter()) {
        assert_eq!(v.encode(), *code);
        assert_eq!(GpioPullup::decode(*code), Some(*v));
    }
}

#[test]
fn gpio_pullup_codes_are_distinct() {
    let variants = gpio_pullup_variants();
    for (i, a) in variants.iter().enumerate() {
        for b in variants.iter().skip(i + 1) {
            assert_ne!(a.encode(), b.encode());
        }
    }
}

fn gpio_pulldown_variants() -> Vec<GpioPulldown> {
    vec![
        GpioPulldown::GpioPulldownDisable,
        GpioPulldown::GpioPulldownEnable,
    ]
}

#[test]
fn gpio_pulldown_codes_and_round_trip() {
    let expected: Vec<u32> = vec![0, 1];
    let variants = gpio_pulldown_variants();
    assert_eq!(variants.len(), expected.len());
    for (v, code) in variants.iter().zip(expected.iter()) {
        assert_eq!(v.encode(), *code);
        assert_eq!(GpioPulldown::decode(*code), Some(*v));
    }
}

#[test]
fn gpio_pulldown_codes_are_distinct() {
    let variants = gpio_pulldown_variants();
    for (i, a) in variants.iter().enumerate() {
        for b in variants.iter().skip(i + 1) {
            assert_ne!(a.encode(), b.encode());
        }
    }
}

fn gpio_pull_mode_variants() -> Vec<GpioPullMode> {
    vec![
        GpioPullMode::GpioPullupOnly,
        GpioPullMode::GpioPulldownOnly,
        GpioPullMode::GpioPullupPulldown,
        GpioPullMode::GpioFloating,
    ]
}

#[test]
fn gpio_pull_mode_codes_and_round_trip() {
    let expected: Vec<u32> = vec![0, 1, 2, 3];
    let variants = gpio_pull_mode_variants();
    assert_eq!(variants.len(), expected.len());
    for (v, code) in variants.iter().zip(expected.iter()) {
        assert_eq!(v.encode(), *code);
        assert_eq!(GpioPullMode::decode(*code), Some(*v));
    }
}

#[test]
fn gpio_pull_mode_codes_are_distinct() {
    let variants = gpio_pull_mode_variants();
    for (i, a) in variants.iter().enumerate() {
        for b in variants.iter().skip(i + 1) {
            assert_ne!(a.encode(), b.encode());
        }
    }
}

fn gpio_drive_capability_variants() -> Vec<GpioDriveCapability> {
    vec![
        GpioDriveCapability::GpioDriveCap0,
        GpioDriveCapability::GpioDriveCap1,
        GpioDriveCapability::GpioDriveCap2,
        GpioDriveCapability::GpioDriveCap3,
        GpioDriveCapability::GpioDriveCapMax,
    ]
}

#[test]
fn gpio_drive_capability_codes_and_round_trip() {
    let expected: Vec<u32> = vec![0, 1, 2, 3, 4];
    let variants = gpio_drive_capability_variants();
    assert_eq!(variants.len(), expected.len());
    for (v, code) in variants.iter().zip(expected.iter()) {
        assert_eq!(v.encode(), *code);
        assert_eq!(GpioDriveCapability::decode(*code), Some(*v));
    }
}

#[test]
fn gpio_drive_capability_codes_are_distinct() {
    let variants = gpio_drive_capability_variants();
    for (i, a) in variants.iter().enumerate() {
        for b in variants.iter().skip(i + 1) {
            assert_ne!(a.encode(), b.encode());
        }
    }
}

fn gpio_hysteresis_control_mode_variants() -> Vec<GpioHysteresisControlMode> {
    vec![
        GpioHysteresisControlMode::GpioHysCtrlEfuse,
        GpioHysteresisControlMode::GpioHysSoftEnable,
        GpioHysteresisControlMode::GpioHysSoftDisable,
    ]
}

#[test]
fn gpio_hysteresis_control_mode_codes_and_round_trip() {
    let expected: Vec<u32> = vec![0, 1, 2];
    let variants = gpio_hysteresis_control_mode_variants();
    assert_eq!(variants.len(), expected.len());
    for (v, code) in variants.iter().zip(expected.iter()) {
        assert_eq!(v.encode(), *code);
        assert_eq!(GpioHysteresisControlMode::decode(*code), Some(*v));
    }
}

#[test]
fn gpio_hysteresis_control_mode_codes_are_distinct() {
    let variants = gpio_hysteresis_control_mode_variants();
    for (i, a) in variants.iter().enumerate() {
        for b in variants.iter().skip(i + 1) {
            assert_ne!(a.encode(), b.encode());
        }
    }
}

fn esp_sleep_ext1_wakeup_mode_variants() -> Vec<EspSleepExt1WakeupMode> {
    vec![
        EspSleepExt1WakeupMode::EspExt1WakeupAllLow,
        EspSleepExt1WakeupMode::EspExt1WakeupAnyHigh,
    ]
}

#[test]
fn esp_sleep_ext1_wakeup_mode_codes_and_round_trip() {
    let expected: Vec<u32> = vec![0, 1];
    let variants = esp_sleep_ext1_wakeup_mode_variants();
    assert_eq!(variants.len(), expected.len());
    for (v, code) in variants.iter().zip(expected.iter()) {
        assert_eq!(v.encode(), *code);
        assert_eq!(EspSleepExt1WakeupMode::decode(*code), Some(*v));
    }
}

#[test]
fn esp_sleep_ext1_wakeup_mode_codes_are_distinct() {
    let variants = esp_sleep_ext1_wakeup_mode_variants();
    for (i, a) in variants.iter().enumerate() {
        for b in variants.iter().skip(i + 1) {
            assert_ne!(a.encode(), b.encode());
        }
    }
}

fn esp_sleep_pd_domain_variants() -> Vec<EspSleepPdDomain> {
    vec![
        EspSleepPdDomain::EspPdDomainRtcPeriph,
        EspSleepPdDomain::EspPdDomainRtcSlowMem,
        EspSleepPdDomain::EspPdDomainRtcFastMem,
        EspSleepPdDomain::EspPdDomainXtal,
        EspSleepPdDomain::EspPdDomainRcFast,
        EspSleepPdDomain::EspPdDomainVddsdio,
        EspSleepPdDomain::EspPdDomainModem,
        EspSleepPdDomain::EspPdDomainMax,
    ]
}

#[test]
fn esp_sleep_pd_domain_codes_and_round_trip() {
    let expected: Vec<u32> = vec![0, 1, 2, 3, 4, 5, 6, 7];
    let variants = esp_sleep_pd_domain_variants();
    assert_eq!(variants.len(), expected.len());
    for (v, code) in variants.iter().zip(expected.iter()) {
        assert_eq!(v.encode(), *code);
        assert_eq!(EspSleepPdDomain::decode(*code), Some(*v));
    }
}

#[test]
fn esp_sleep_pd_domain_codes_are_distinct() {
    let variants = esp_sleep_pd_domain_variants();
    for (i, a) in variants.iter().enumerate() {
        for b in variants.iter().skip(i + 1) {
            assert_ne!(a.encode(), b.encode());
        }
    }
}

fn esp_sleep_pd_option_variants() -> Vec<EspSleepPdOption> {
    vec![
        EspSleepPdOption::EspPdOptionOff,
        EspSleepPdOption::EspPdOptionOn,
        EspSleepPdOption::EspPdOptionAuto,
    ]
}

#[test]
fn esp_sleep_pd_option_codes_and_round_trip() {
    let expected: Vec<u32> = vec![0, 1, 2];
    let variants = esp_sleep_pd_option_variants();
    assert_eq!(variants.len(), expected.len());
    for (v, code) in variants.iter().zip(expected.iter()) {
        assert_eq!(v.encode(), *code);
        assert_eq!(EspSleepPdOption::decode(*code), Some(*v));
    }
}

#[test]
fn esp_sleep_pd_option_codes_are_distinct() {
    let variants = esp_sleep_pd_option_variants();
    for (i, a) in variants.iter().enumerate() {
        for b in variants.iter().skip(i + 1) {
            assert_ne!(a.encode(), b.encode());
        }
    }
}

fn esp_sleep_wakeup_cause_variants() -> Vec<EspSleepWakeupCause> {
    vec![
        EspSleepWakeupCause::EspSleepWakeupUndefined,
        EspSleepWakeupCause::EspSleepWakeupAll,
        EspSleepWakeupCause::EspSleepWakeupExt0,
        EspSleepWakeupCause::EspSleepWakeupExt1,
        EspSleepWakeupCause::EspSleepWakeupTimer,
        EspSleepWakeupCause::EspSleepWakeupTouchpad,
        EspSleepWakeupCause::EspSleepWakeupUlp,
        EspSleepWakeupCause::EspSleepWakeupGpio,
        EspSleepWakeupCause::EspSleepWakeupUart,
        EspSleepWakeupCause::EspSleepWakeupWifi,
        EspSleepWakeupCause::EspSleepWakeupCocpu,
        EspSleepWakeupCause::EspSleepWakeupCocpuTrapTrig,
        EspSleepWakeupCause::EspSleepWakeupBt,
    ]
}

#[test]
fn esp_sleep_wakeup_cause_codes_and_round_trip() {
    let expected: Vec<u32> = vec![0, 1, 2, 3, 4, 5, 6, 7, 8, 9, 10, 11, 12];
    let variants = esp_sleep_wakeup_cause_variants();
    assert_eq!(variants.len(), expected.len());
    for (v, code) in variants.iter().zip(expected.iter()) {
        assert_eq!(v.encode(), *code);
        assert_eq!(EspSleepWakeupCause::decode(*code), Some(*v));
    }
}

#[test]
fn esp_sleep_wakeup_cause_codes_are_distinct() {
    let variants = esp_sleep_wakeup_cause_variants();
    for (i, a) in variants.iter().enumerate() {
        for b in variants.iter().skip(i + 1) {
            assert_ne!(a.encode(), b.encode());
        }
    }
}

fn esp_sleep_mode_variants() -> Vec<EspSleepMode> {
    vec![
        EspSleepMode::EspSleepModeLightSleep,
        EspSleepMode::EspSleepModeDeepSleep,
    ]
}

#[test]
fn esp_sleep_mode_codes_and_round_trip() {
    let expected: Vec<u32> = vec![0, 1];
    let variants = esp_sleep_mode_variants();
    assert_eq!(variants.len(), expected.len());
    for (v, code) in variants.iter().zip(expected.iter()) {
        assert_eq!(v.encode(), *code);
        assert_eq!(EspSleepMode::decode(*code), Some(*v));
    }
}

#[test]
fn esp_sleep_mode_codes_are_distinct() {
    let variants = esp_sleep_mode_variants();
    for (i, a) in variants.iter().enumerate() {
        for b in variants.iter().skip(i + 1) {
            assert_ne!(a.encode(), b.encode());
        }
    }
}

#[test]
fn channel_num4_concrete() {
    assert_eq!(TouchPadChannel::Num4.encode(), 4);
    assert_eq!(TouchPadChannel::decode(4), Some(TouchPadChannel::Num4));
}

#[test]
fn out_of_range_codes_decode_to_none() {
    assert_eq!(TouchPadChannel::decode(11), None);
    assert_eq!(TouchPadChannel::decode(u32::MAX), None);
    assert_eq!(TouchHighVoltage::decode(-2), None);
    assert_eq!(TouchHighVoltage::decode(5), None);
    assert_eq!(GpioNum::decode(24), None);
    assert_eq!(GpioNum::decode(41), None);
    assert_eq!(GpioMode::decode(4), None);
    assert_eq!(GpioMode::decode(5), None);
    assert_eq!(EspSleepWakeupCause::decode(13), None);
}

#[test]
fn max_sentinels_are_ordinary_setter_inputs() {
    // The sentinel encodes like any other variant; rejecting it as a
    // configuration value is the native driver's responsibility.
    assert_eq!(TouchPadChannel::Max.encode(), 10);
    assert_eq!(TouchHighVoltage::Max.encode(), 4);
    assert_eq!(TouchLowVoltage::Max.encode(), 4);
    assert_eq!(TouchVoltageAttenuation::Max.encode(), 4);
    assert_eq!(TouchCountSlope::Max.encode(), 8);
    assert_eq!(TouchTieOption::Max.encode(), 2);
    assert_eq!(TouchFSMMode::Max.encode(), 2);
    assert_eq!(TouchTriggerMode::Max.encode(), 2);
    assert_eq!(TouchTriggerSource::Max.encode(), 2);
    assert_eq!(GPIOPort::Max.encode(), 1);
    assert_eq!(GpioNum::GpioNumMax.encode(), 40);
    assert_eq!(GpioIntType::GpioIntrMax.encode(), 6);
    assert_eq!(GpioDriveCapability::GpioDriveCapMax.encode(), 4);
    assert_eq!(EspSleepPdDomain::EspPdDomainMax.encode(), 7);
}
