use gateway::plan::{
    config_steps, default_plan, BoardConf, Bandwidth, ChannelConf, ChannelPlan, ConfigStep, Radio,
    RadioType, RxRFConf, Spreading,
};

#[test]
fn default_plan_board_and_chains() {
    let plan = default_plan();
    assert_eq!(plan.board, BoardConf { lorawan_public: false, clksrc: Radio::R1 });
    assert_eq!(plan.rf_chains.len(), 2);
    assert_eq!(
        plan.rf_chains[0],
        RxRFConf {
            enable: true,
            freq: 911_500_000,
            rssi_offset_centi_db: -16_200,
            radio_type: RadioType::SX1257,
            tx_enable: true,
            tx_notch_freq: 126_000,
        }
    );
    assert_eq!(
        plan.rf_chains[1],
        RxRFConf {
            enable: true,
            freq: 903_500_000,
            rssi_offset_centi_db: -16_200,
            radio_type: RadioType::SX1257,
            tx_enable: false,
            tx_notch_freq: 0,
        }
    );
}

#[test]
fn default_plan_channels() {
    let plan = default_plan();
    assert_eq!(plan.channels.len(), 10);
    let offsets = [-400_000, -200_000, 0, 200_000];
    for k in 0..4 {
        assert_eq!(
            plan.channels[k],
            ChannelConf::Multirate { radio: Radio::R0, offset_hz: offsets[k] }
        );
        assert_eq!(
            plan.channels[k + 4],
            ChannelConf::Multirate { radio: Radio::R1, offset_hz: offsets[k] }
        );
    }
    assert_eq!(
        plan.channels[8],
        ChannelConf::Fixed {
            radio: Radio::R0,
            offset_hz: 300_000,
            bandwidth: Bandwidth::Bw500kHz,
            spreading: Spreading::Sf8,
        }
    );
    assert_eq!(plan.channels[9], ChannelConf::Disable);
}

#[test]
fn config_steps_order_for_default_plan() {
    let plan = default_plan();
    let steps = config_steps(&plan);
    assert_eq!(steps.len(), 13);
    assert_eq!(steps[0], ConfigStep::Board(plan.board));
    assert_eq!(steps[1], ConfigStep::RfChain(0, plan.rf_chains[0]));
    assert_eq!(steps[2], ConfigStep::RfChain(1, plan.rf_chains[1]));
    for j in 0..10 {
        assert_eq!(steps[3 + j], ConfigStep::Channel(j, plan.channels[j]));
    }
}

#[test]
fn config_steps_order_for_small_plan() {
    let chain = RxRFConf {
        enable: true,
        freq: 868_100_000,
        rssi_offset_centi_db: 0,
        radio_type: RadioType::SX1255,
        tx_enable: false,
        tx_notch_freq: 0,
    };
    let plan = ChannelPlan {
        board: BoardConf { lorawan_public: true, clksrc: Radio::R0 },
        rf_chains: vec![chain],
        channels: vec![
            ChannelConf::Multirate { radio: Radio::R0, offset_hz: -100_000 },
            ChannelConf::Disable,
        ],
    };
    let steps = config_steps(&plan);
    assert_eq!(steps.len(), 4);
    assert!(matches!(steps[0], ConfigStep::Board(_)));
    assert_eq!(steps[1], ConfigStep::RfChain(0, chain));
    assert_eq!(
        steps[2],
        ConfigStep::Channel(0, ChannelConf::Multirate { radio: Radio::R0, offset_hz: -100_000 })
    );
    assert_eq!(steps[3], ConfigStep::Channel(1, ChannelConf::Disable));
}
