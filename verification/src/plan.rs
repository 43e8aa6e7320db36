//! The channel plan: board, RF-chain and demodulation-channel configuration
//! data, and the ordered sequence of configuration steps derived from a plan.
//!
//! The concentrator must receive its configuration in a fixed order — board
//! first, then the RF chains, then the channels — because channels reference
//! the chains and the chains reference the board's clock source. The order is
//! captured by [`plan_steps`] and proved in [`lemma_config_order`].

use vstd::prelude::*;

verus! {

/// Index of a physical radio chain (RF front end). This deployment has two.
#[derive(Clone, Copy, Debug, PartialEq, Eq, Structural)]
pub enum Radio {
    R0,
    R1,
}

impl Radio {
    /// The chain's position in a plan's list of RF-chain configurations.
    pub open spec fn chain_index(self) -> nat {
        match self {
            Radio::R0 => 0,
            Radio::R1 => 1,
        }
    }
}

/// The radio chip driving an RF chain.
#[derive(Clone, Copy, Debug, PartialEq, Eq, Structural)]
pub enum RadioType {
    SX1255,
    SX1257,
}

/// Bandwidth of a fixed-rate channel.
#[derive(Clone, Copy, Debug, PartialEq, Eq, Structural)]
pub enum Bandwidth {
    Bw125kHz,
    Bw250kHz,
    Bw500kHz,
}

/// Spreading factor of a fixed-rate channel.
#[derive(Clone, Copy, Debug, PartialEq, Eq, Structural)]
pub enum Spreading {
    Sf7,
    Sf8,
    Sf9,
    Sf10,
    Sf11,
    Sf12,
}

/// Board-level configuration, applied exactly once and before anything else.
#[derive(Clone, Copy, Debug, PartialEq, Eq, Structural)]
pub struct BoardConf {
    /// Whether the gateway serves a public LoRaWAN network.
    pub lorawan_public: bool,
    /// The radio chain that supplies the concentrator's clock.
    pub clksrc: Radio,
}

/// Configuration of one RF chain.
#[derive(Clone, Copy, Debug, PartialEq, Eq, Structural)]
pub struct RxRFConf {
    /// Whether this chain demodulates at all.
    pub enable: bool,
    /// Center frequency in hertz.
    pub freq: u32,
    /// RSSI calibration offset, in hundredths of a decibel.
    pub rssi_offset_centi_db: i32,
    /// The chip driving this chain.
    pub radio_type: RadioType,
    /// Whether this chain may transmit.
    pub tx_enable: bool,
    /// TX notch filter frequency in hertz; zero when unused.
    pub tx_notch_freq: u32,
}

/// Configuration of one logical demodulation channel.
#[derive(Clone, Copy, Debug, PartialEq, Eq, Structural)]
pub enum ChannelConf {
    /// A multi-spreading-factor channel at a signed offset, in hertz, from
    /// its radio chain's center frequency.
    Multirate { radio: Radio, offset_hz: i32 },
    /// A single fixed-rate channel.
    Fixed { radio: Radio, offset_hz: i32, bandwidth: Bandwidth, spreading: Spreading },
    /// Channel left inactive.
    Disable,
}

/// A complete channel plan: `rf_chains[i]` configures chain `i` and
/// `channels[j]` configures logical channel `j`.
#[derive(Debug)]
pub struct ChannelPlan {
    pub board: BoardConf,
    pub rf_chains: Vec<RxRFConf>,
    pub channels: Vec<ChannelConf>,
}

/// Whether a channel references only radio chains that exist.
pub open spec fn channel_radio_ok(c: ChannelConf, n_chains: nat) -> bool {
    match c {
        ChannelConf::Multirate { radio, .. } => radio.chain_index() < n_chains,
        ChannelConf::Fixed { radio, .. } => radio.chain_index() < n_chains,
        ChannelConf::Disable => true,
    }
}

/// A plan is well formed when its clock source and every active channel
/// reference a radio chain that the plan configures.
pub open spec fn plan_wf(plan: ChannelPlan) -> bool {
    &&& plan.board.clksrc.chain_index() < plan.rf_chains@.len()
    &&& forall|j: int|
        0 <= j < plan.channels@.len() ==> channel_radio_ok(
            #[trigger] plan.channels@[j],
            plan.rf_chains@.len(),
        )
}

/// One configuration call, as the concentrator must receive it.
#[derive(Clone, Copy, Debug, PartialEq, Eq, Structural)]
pub enum ConfigStep {
    /// Apply the board configuration.
    Board(BoardConf),
    /// Configure the RF chain with the given index.
    RfChain(usize, RxRFConf),
    /// Configure the demodulation channel with the given index.
    Channel(usize, ChannelConf),
}

/// The configuration sequence of a plan: the board first, then every RF
/// chain in ascending index order, then every channel in ascending index
/// order.
pub open spec fn plan_steps(plan: ChannelPlan) -> Seq<ConfigStep> {
    seq![ConfigStep::Board(plan.board)]
        + Seq::new(plan.rf_chains@.len(), |i: int| ConfigStep::RfChain(i as usize, plan.rf_chains@[i]))
        + Seq::new(plan.channels@.len(), |i: int| ConfigStep::Channel(i as usize, plan.channels@[i]))
}

/// Build the ordered configuration sequence of `plan`.
pub fn config_steps(plan: &ChannelPlan) -> (steps: Vec<ConfigStep>)
    ensures
        steps@ == plan_steps(*plan),
{
    let mut steps: Vec<ConfigStep> = Vec::new();
    steps.push(ConfigStep::Board(plan.board));
    let mut i: usize = 0;
    while i < plan.rf_chains.len()
        invariant
            i <= plan.rf_chains@.len(),
            steps@.len() == 1 + i,
            steps@[0] == ConfigStep::Board(plan.board),
            forall|m: int|
                1 <= m < steps@.len() ==> #[trigger] steps@[m] == ConfigStep::RfChain(
                    (m - 1) as usize,
                    plan.rf_chains@[m - 1],
                ),
        decreases plan.rf_chains@.len() - i,
    {
        steps.push(ConfigStep::RfChain(i, plan.rf_chains[i]));
        i = i + 1;
    }
    let mut j: usize = 0;
    while j < plan.channels.len()
        invariant
            j <= plan.channels@.len(),
            steps@.len() == 1 + plan.rf_chains@.len() + j,
            steps@[0] == ConfigStep::Board(plan.board),
            forall|m: int|
                1 <= m < 1 + plan.rf_chains@.len() ==> #[trigger] steps@[m] == ConfigStep::RfChain(
                    (m - 1) as usize,
                    plan.rf_chains@[m - 1],
                ),
            forall|m: int|
                1 + plan.rf_chains@.len() <= m < steps@.len() ==> #[trigger] steps@[m]
                    == ConfigStep::Channel(
                    (m - 1 - plan.rf_chains@.len()) as usize,
                    plan.channels@[m - 1 - plan.rf_chains@.len()],
                ),
        decreases plan.channels@.len() - j,
    {
        steps.push(ConfigStep::Channel(j, plan.channels[j]));
        j = j + 1;
    }
    proof {
        assert(steps@ =~= plan_steps(*plan));
    }
    steps
}

/// The fixed deployment plan: two SX1257 chains around 911.5 MHz and
/// 903.5 MHz, eight multirate channels split across them, one fixed-rate
/// LoRa channel, and one channel left inactive.
pub fn default_plan() -> (plan: ChannelPlan)
    ensures
        plan.board == (BoardConf { lorawan_public: false, clksrc: Radio::R1 }),
        plan.rf_chains@.len() == 2,
        plan.rf_chains@[0] == (RxRFConf {
            enable: true,
            freq: 911_500_000,
            rssi_offset_centi_db: -16_200i32,
            radio_type: RadioType::SX1257,
            tx_enable: true,
            tx_notch_freq: 126_000,
        }),
        plan.rf_chains@[1] == (RxRFConf {
            enable: true,
            freq: 903_500_000,
            rssi_offset_centi_db: -16_200i32,
            radio_type: RadioType::SX1257,
            tx_enable: false,
            tx_notch_freq: 0,
        }),
        plan.channels@.len() == 10,
        plan.channels@[0] == (ChannelConf::Multirate { radio: Radio::R0, offset_hz: -400_000i32 }),
        plan.channels@[1] == (ChannelConf::Multirate { radio: Radio::R0, offset_hz: -200_000i32 }),
        plan.channels@[2] == (ChannelConf::Multirate { radio: Radio::R0, offset_hz: 0 }),
        plan.channels@[3] == (ChannelConf::Multirate { radio: Radio::R0, offset_hz: 200_000 }),
        plan.channels@[4] == (ChannelConf::Multirate { radio: Radio::R1, offset_hz: -400_000i32 }),
        plan.channels@[5] == (ChannelConf::Multirate { radio: Radio::R1, offset_hz: -200_000i32 }),
        plan.channels@[6] == (ChannelConf::Multirate { radio: Radio::R1, offset_hz: 0 }),
        plan.channels@[7] == (ChannelConf::Multirate { radio: Radio::R1, offset_hz: 200_000 }),
        plan.channels@[8] == (ChannelConf::Fixed {
            radio: Radio::R0,
            offset_hz: 300_000,
            bandwidth: Bandwidth::Bw500kHz,
            spreading: Spreading::Sf8,
        }),
        plan.channels@[9] == ChannelConf::Disable,
        plan_wf(plan),
{
    let mut rf_chains: Vec<RxRFConf> = Vec::new();
    rf_chains.push(RxRFConf {
        enable: true,
        freq: 911_500_000,
        rssi_offset_centi_db: -16_200i32,
        radio_type: RadioType::SX1257,
        tx_enable: true,
        tx_notch_freq: 126_000,
    });
    rf_chains.push(RxRFConf {
        enable: true,
        freq: 903_500_000,
        rssi_offset_centi_db: -16_200i32,
        radio_type: RadioType::SX1257,
        tx_enable: false,
        tx_notch_freq: 0,
    });
    let mut channels: Vec<ChannelConf> = Vec::new();
    channels.push(ChannelConf::Multirate { radio: Radio::R0, offset_hz: -400_000i32 });
    channels.push(ChannelConf::Multirate { radio: Radio::R0, offset_hz: -200_000i32 });
    channels.push(ChannelConf::Multirate { radio: Radio::R0, offset_hz: 0 });
    channels.push(ChannelConf::Multirate { radio: Radio::R0, offset_hz: 200_000 });
    channels.push(ChannelConf::Multirate { radio: Radio::R1, offset_hz: -400_000i32 });
    channels.push(ChannelConf::Multirate { radio: Radio::R1, offset_hz: -200_000i32 });
    channels.push(ChannelConf::Multirate { radio: Radio::R1, offset_hz: 0 });
    channels.push(ChannelConf::Multirate { radio: Radio::R1, offset_hz: 200_000 });
    channels.push(ChannelConf::Fixed {
        radio: Radio::R0,
        offset_hz: 300_000,
        bandwidth: Bandwidth::Bw500kHz,
        spreading: Spreading::Sf8,
    });
    channels.push(ChannelConf::Disable);
    ChannelPlan { board: BoardConf { lorawan_public: false, clksrc: Radio::R1 }, rf_chains, channels }
}

/// Law: in any plan's configuration sequence the board configuration stands
/// first and nowhere else, every RF-chain step precedes every channel step,
/// and RF-chain steps and channel steps each appear in ascending index order.
pub proof fn lemma_config_order(plan: ChannelPlan)
    ensures
        plan_steps(plan).len() == 1 + plan.rf_chains@.len() + plan.channels@.len(),
        forall|i: int|
            0 <= i < plan_steps(plan).len() ==> ((#[trigger] plan_steps(plan)[i]) is Board <==> i
                == 0),
        forall|i: int, j: int|
            0 <= i < plan_steps(plan).len() && 0 <= j < plan_steps(plan).len() && (
            #[trigger] plan_steps(plan)[i]) is RfChain && (#[trigger] plan_steps(plan)[j]) is Channel
                ==> i < j,
        forall|i: int, j: int|
            0 <= i < j < plan_steps(plan).len() && (#[trigger] plan_steps(plan)[i]) is RfChain && (
            #[trigger] plan_steps(plan)[j]) is RfChain ==> plan_steps(plan)[i]->RfChain_0
                < plan_steps(plan)[j]->RfChain_0,
        forall|i: int, j: int|
            0 <= i < j < plan_steps(plan).len() && (#[trigger] plan_steps(plan)[i]) is Channel && (
            #[trigger] plan_steps(plan)[j]) is Channel ==> plan_steps(plan)[i]->Channel_0
                < plan_steps(plan)[j]->Channel_0,
{
    let s = plan_steps(plan);
    let n_rf = plan.rf_chains@.len();
    let n_ch = plan.channels@.len();
    assert(plan.rf_chains@.len() == plan.rf_chains.len());
    assert(plan.channels@.len() == plan.channels.len());
    assert forall|i: int| 0 <= i < s.len() implies ((#[trigger] s[i]) is Board <==> i == 0) by {
        if 1 <= i < 1 + n_rf {
            assert(s[i] == ConfigStep::RfChain((i - 1) as usize, plan.rf_chains@[i - 1]));
        }
        if 1 + n_rf <= i {
            assert(s[i] == ConfigStep::Channel((i - 1 - n_rf) as usize, plan.channels@[i - 1 - n_rf]));
        }
    }
    assert forall|i: int|
        1 <= i < 1 + n_rf implies #[trigger] s[i] == ConfigStep::RfChain(
        (i - 1) as usize,
        plan.rf_chains@[i - 1],
    ) by {}
    assert forall|i: int|
        1 + n_rf <= i < s.len() implies #[trigger] s[i] == ConfigStep::Channel(
        (i - 1 - n_rf) as usize,
        plan.channels@[i - 1 - n_rf],
    ) by {}
}

} // verus!
