//! The IANA registry of IPv4/IPv6 protocol numbers: a closed enumeration of
//! assigned values plus an open band, 143 to 252, for custom protocols.
use vstd::prelude::*;

verus! {

/// An IANA-assigned protocol number. The unassigned band 143 to 252 is not
/// here: it belongs to [`Protocol::Custom`].
#[allow(non_camel_case_types)]
#[derive(Clone, Copy, Debug, PartialEq, Eq, Structural)]
pub enum StandardProtocol {
    HOPOPT,
    ICMP,
    IGMP,
    GGP,
    IPV4,
    ST,
    TCP,
    CBT,
    EGP,
    IGP,
    BBN_RCC_MON,
    NVP_II,
    PUP,
    ARGUS,
    EMCON,
    XNET,
    CHAOS,
    UDP,
    MUX,
    DCN_MEAS,
    HMP,
    PRM,
    XNS_IDP,
    TRUNK_1,
    TRUNK_2,
    LEAF_1,
    LEAF_2,
    RDP,
    IRTP,
    ISO_TP4,
    NETBLT,
    MFE_NSP,
    MERIT_INP,
    DCCP,
    THREE_PC,
    IDPR,
    XTP,
    DDP,
    IDPR_CMTP,
    TPPP,
    IL,
    IPV6,
    SDRP,
    IPV6_ROUTE,
    IPV6_FRAG,
    IDRP,
    RSVP,
    GRE,
    DSR,
    BNA,
    ESP,
    AH,
    I_NLSP,
    SWIPE,
    NARP,
    MOBILE,
    TLSP,
    SKIP,
    IPV6_ICMP,
    IPV6_NO_NXT,
    IPV6_OPTS,
    HOST_INTERNAL,
    CFTP,
    LOCAL_NETWORK,
    SAT_EXPAK,
    KRYPTOLAN,
    RVD,
    IPPC,
    ANY_DISTRIBUTED_FS,
    SAT_MON,
    VISA,
    IPCV,
    CPNX,
    CPHB,
    WSN,
    PVP,
    BR_SAT_MON,
    SUN_ND,
    WB_MON,
    WB_EXPAK,
    ISO_IP,
    VMTP,
    SECURE_VMTP,
    VINES,
    TTP,
    NSFNET_IGP,
    DGP,
    TCF,
    EIGRP,
    OSPFIGP,
    SPRITE_RPC,
    LARP,
    MTP,
    AX25,
    IPIP,
    MICP,
    SCC_SP,
    ETHERIP,
    ENCAP,
    PRIVATE_ENCRYPTION,
    GMTP,
    IFMP,
    PNNI,
    PIM,
    ARIS,
    SCPS,
    QNX,
    AN,
    IP_COMP,
    SNP,
    COMPAQ_PEER,
    IPX_IN_IP,
    VRRP,
    PGM,
    ZERO_HOP,
    L2TP,
    DDX,
    IATP,
    STP,
    SRP,
    UTI,
    SMP,
    SM,
    PTP,
    ISIS,
    FIRE,
    CRTP,
    CRUDP,
    SSCOPMCE,
    IPLT,
    SPS,
    PIPE,
    SCTP,
    FC,
    RSVP_E2E_IGNORE,
    MOBILITY,
    UDP_LITE,
    MPLS_IN_IP,
    MANET,
    HIP,
    SHIM6,
    WESP,
    ROHC,
    EXPERIMENTAL1,
    EXPERIMENTAL2,
    RESERVED,
}

/// A protocol number: either a registered one or a custom value in the
/// unassigned band 143 to 252.
#[derive(Clone, Copy, Debug, PartialEq, Eq, Structural)]
pub enum Protocol {
    /// RESERVED should not be used.
    Standard(StandardProtocol),
    /// Use values in [143, 252].
    Custom(u8),
}

/// The registered number of a standard protocol.
pub open spec fn spec_standard_value(p: StandardProtocol) -> u8 {
    match p {
        StandardProtocol::HOPOPT => 0,
        StandardProtocol::ICMP => 1,
        StandardProtocol::IGMP => 2,
        StandardProtocol::GGP => 3,
        StandardProtocol::IPV4 => 4,
        StandardProtocol::ST => 5,
        StandardProtocol::TCP => 6,
        StandardProtocol::CBT => 7,
        StandardProtocol::EGP => 8,
        StandardProtocol::IGP => 9,
        StandardProtocol::BBN_RCC_MON => 10,
        StandardProtocol::NVP_II => 11,
        StandardProtocol::PUP => 12,
        StandardProtocol::ARGUS => 13,
        StandardProtocol::EMCON => 14,
        StandardProtocol::XNET => 15,
        StandardProtocol::CHAOS => 16,
        StandardProtocol::UDP => 17,
        StandardProtocol::MUX => 18,
        StandardProtocol::DCN_MEAS => 19,
        StandardProtocol::HMP => 20,
        StandardProtocol::PRM => 21,
        StandardProtocol::XNS_IDP => 22,
        StandardProtocol::TRUNK_1 => 23,
        StandardProtocol::TRUNK_2 => 24,
        StandardProtocol::LEAF_1 => 25,
        StandardProtocol::LEAF_2 => 26,
        StandardProtocol::RDP => 27,
        StandardProtocol::IRTP => 28,
        StandardProtocol::ISO_TP4 => 29,
        StandardProtocol::NETBLT => 30,
        StandardProtocol::MFE_NSP => 31,
        StandardProtocol::MERIT_INP => 32,
        StandardProtocol::DCCP => 33,
        StandardProtocol::THREE_PC => 34,
        StandardProtocol::IDPR => 35,
        StandardProtocol::XTP => 36,
        StandardProtocol::DDP => 37,
        StandardProtocol::IDPR_CMTP => 38,
        StandardProtocol::TPPP => 39,
        StandardProtocol::IL => 40,
        StandardProtocol::IPV6 => 41,
        StandardProtocol::SDRP => 42,
        StandardProtocol::IPV6_ROUTE => 43,
        StandardProtocol::IPV6_FRAG => 44,
        StandardProtocol::IDRP => 45,
        StandardProtocol::RSVP => 46,
        StandardProtocol::GRE => 47,
        StandardProtocol::DSR => 48,
        StandardProtocol::BNA => 49,
        StandardProtocol::ESP => 50,
        StandardProtocol::AH => 51,
        StandardProtocol::I_NLSP => 52,
        StandardProtocol::SWIPE => 53,
        StandardProtocol::NARP => 54,
        StandardProtocol::MOBILE => 55,
        StandardProtocol::TLSP => 56,
        StandardProtocol::SKIP => 57,
        StandardProtocol::IPV6_ICMP => 58,
        StandardProtocol::IPV6_NO_NXT => 59,
        StandardProtocol::IPV6_OPTS => 60,
        StandardProtocol::HOST_INTERNAL => 61,
        StandardProtocol::CFTP => 62,
        StandardProtocol::LOCAL_NETWORK => 63,
        StandardProtocol::SAT_EXPAK => 64,
        StandardProtocol::KRYPTOLAN => 65,
        StandardProtocol::RVD => 66,
        StandardProtocol::IPPC => 67,
        StandardProtocol::ANY_DISTRIBUTED_FS => 68,
        StandardProtocol::SAT_MON => 69,
        StandardProtocol::VISA => 70,
        StandardProtocol::IPCV => 71,
        StandardProtocol::CPNX => 72,
        StandardProtocol::CPHB => 73,
        StandardProtocol::WSN => 74,
        StandardProtocol::PVP => 75,
        StandardProtocol::BR_SAT_MON => 76,
        StandardProtocol::SUN_ND => 77,
        StandardProtocol::WB_MON => 78,
        StandardProtocol::WB_EXPAK => 79,
        StandardProtocol::ISO_IP => 80,
        StandardProtocol::VMTP => 81,
        StandardProtocol::SECURE_VMTP => 82,
        StandardProtocol::VINES => 83,
        StandardProtocol::TTP => 84,
        StandardProtocol::NSFNET_IGP => 85,
        StandardProtocol::DGP => 86,
        StandardProtocol::TCF => 87,
        StandardProtocol::EIGRP => 88,
        StandardProtocol::OSPFIGP => 89,
        StandardProtocol::SPRITE_RPC => 90,
        StandardProtocol::LARP => 91,
        StandardProtocol::MTP => 92,
        StandardProtocol::AX25 => 93,
        StandardProtocol::IPIP => 94,
        StandardProtocol::MICP => 95,
        StandardProtocol::SCC_SP => 96,
        StandardProtocol::ETHERIP => 97,
        StandardProtocol::ENCAP => 98,
        StandardProtocol::PRIVATE_ENCRYPTION => 99,
        StandardProtocol::GMTP => 100,
        StandardProtocol::IFMP => 101,
        StandardProtocol::PNNI => 102,
        StandardProtocol::PIM => 103,
        StandardProtocol::ARIS => 104,
        StandardProtocol::SCPS => 105,
        StandardProtocol::QNX => 106,
        StandardProtocol::AN => 107,
        StandardProtocol::IP_COMP => 108,
        StandardProtocol::SNP => 109,
        StandardProtocol::COMPAQ_PEER => 110,
        StandardProtocol::IPX_IN_IP => 111,
        StandardProtocol::VRRP => 112,
        StandardProtocol::PGM => 113,
        StandardProtocol::ZERO_HOP => 114,
        StandardProtocol::L2TP => 115,
        StandardProtocol::DDX => 116,
        StandardProtocol::IATP => 117,
        StandardProtocol::STP => 118,
        StandardProtocol::SRP => 119,
        StandardProtocol::UTI => 120,
        StandardProtocol::SMP => 121,
        StandardProtocol::SM => 122,
        StandardProtocol::PTP => 123,
        StandardProtocol::ISIS => 124,
        StandardProtocol::FIRE => 125,
        StandardProtocol::CRTP => 126,
        StandardProtocol::CRUDP => 127,
        StandardProtocol::SSCOPMCE => 128,
        StandardProtocol::IPLT => 129,
        StandardProtocol::SPS => 130,
        StandardProtocol::PIPE => 131,
        StandardProtocol::SCTP => 132,
        StandardProtocol::FC => 133,
        StandardProtocol::RSVP_E2E_IGNORE => 134,
        StandardProtocol::MOBILITY => 135,
        StandardProtocol::UDP_LITE => 136,
        StandardProtocol::MPLS_IN_IP => 137,
        StandardProtocol::MANET => 138,
        StandardProtocol::HIP => 139,
        StandardProtocol::SHIM6 => 140,
        StandardProtocol::WESP => 141,
        StandardProtocol::ROHC => 142,
        StandardProtocol::EXPERIMENTAL1 => 253,
        StandardProtocol::EXPERIMENTAL2 => 254,
        StandardProtocol::RESERVED => 255,
    }
}

/// The byte a protocol is written as on the wire.
pub open spec fn spec_protocol_value(p: Protocol) -> u8 {
    match p {
        Protocol::Standard(s) => spec_standard_value(s),
        Protocol::Custom(v) => v,
    }
}

/// The protocol a byte decodes to: the unassigned band becomes `Custom`,
/// every other value its registered protocol.
pub open spec fn spec_protocol_from(v: u8) -> Protocol {
    if 143 <= v <= 252 {
        Protocol::Custom(v)
    } else {
        if v == 0 {
            Protocol::Standard(StandardProtocol::HOPOPT)
        } else if v == 1 {
            Protocol::Standard(StandardProtocol::ICMP)
        } else if v == 2 {
            Protocol::Standard(StandardProtocol::IGMP)
        } else if v == 3 {
            Protocol::Standard(StandardProtocol::GGP)
        } else if v == 4 {
            Protocol::Standard(StandardProtocol::IPV4)
        } else if v == 5 {
            Protocol::Standard(StandardProtocol::ST)
        } else if v == 6 {
            Protocol::Standard(StandardProtocol::TCP)
        } else if v == 7 {
            Protocol::Standard(StandardProtocol::CBT)
        } else if v == 8 {
            Protocol::Standard(StandardProtocol::EGP)
        } else if v == 9 {
            Protocol::Standard(StandardProtocol::IGP)
        } else if v == 10 {
            Protocol::Standard(StandardProtocol::BBN_RCC_MON)
        } else if v == 11 {
            Protocol::Standard(StandardProtocol::NVP_II)
        } else if v == 12 {
            Protocol::Standard(StandardProtocol::PUP)
        } else if v == 13 {
            Protocol::Standard(StandardProtocol::ARGUS)
        } else if v == 14 {
            Protocol::Standard(StandardProtocol::EMCON)
        } else if v == 15 {
            Protocol::Standard(StandardProtocol::XNET)
        } else if v == 16 {
            Protocol::Standard(StandardProtocol::CHAOS)
        } else if v == 17 {
            Protocol::Standard(StandardProtocol::UDP)
        } else if v == 18 {
            Protocol::Standard(StandardProtocol::MUX)
        } else if v == 19 {
            Protocol::Standard(StandardProtocol::DCN_MEAS)
        } else if v == 20 {
            Protocol::Standard(StandardProtocol::HMP)
        } else if v == 21 {
            Protocol::Standard(StandardProtocol::PRM)
        } else if v == 22 {
            Protocol::Standard(StandardProtocol::XNS_IDP)
        } else if v == 23 {
            Protocol::Standard(StandardProtocol::TRUNK_1)
        } else if v == 24 {
            Protocol::Standard(StandardProtocol::TRUNK_2)
        } else if v == 25 {
            Protocol::Standard(StandardProtocol::LEAF_1)
        } else if v == 26 {
            Protocol::Standard(StandardProtocol::LEAF_2)
        } else if v == 27 {
            Protocol::Standard(StandardProtocol::RDP)
        } else if v == 28 {
            Protocol::Standard(StandardProtocol::IRTP)
        } else if v == 29 {
            Protocol::Standard(StandardProtocol::ISO_TP4)
        } else if v == 30 {
            Protocol::Standard(StandardProtocol::NETBLT)
        } else if v == 31 {
            Protocol::Standard(StandardProtocol::MFE_NSP)
        } else if v == 32 {
            Protocol::Standard(StandardProtocol::MERIT_INP)
        } else if v == 33 {
            Protocol::Standard(StandardProtocol::DCCP)
        } else if v == 34 {
            Protocol::Standard(StandardProtocol::THREE_PC)
        } else if v == 35 {
            Protocol::Standard(StandardProtocol::IDPR)
        } else if v == 36 {
            Protocol::Standard(StandardProtocol::XTP)
        } else if v == 37 {
            Protocol::Standard(StandardProtocol::DDP)
        } else if v == 38 {
            Protocol::Standard(StandardProtocol::IDPR_CMTP)
        } else if v == 39 {
            Protocol::Standard(StandardProtocol::TPPP)
        } else if v == 40 {
            Protocol::Standard(StandardProtocol::IL)
        } else if v == 41 {
            Protocol::Standard(StandardProtocol::IPV6)
        } else if v == 42 {
            Protocol::Standard(StandardProtocol::SDRP)
        } else if v == 43 {
            Protocol::Standard(StandardProtocol::IPV6_ROUTE)
        } else if v == 44 {
            Protocol::Standard(StandardProtocol::IPV6_FRAG)
        } else if v == 45 {
            Protocol::Standard(StandardProtocol::IDRP)
        } else if v == 46 {
            Protocol::Standard(StandardProtocol::RSVP)
        } else if v == 47 {
            Protocol::Standard(StandardProtocol::GRE)
        } else if v == 48 {
            Protocol::Standard(StandardProtocol::DSR)
        } else if v == 49 {
            Protocol::Standard(StandardProtocol::BNA)
        } else if v == 50 {
            Protocol::Standard(StandardProtocol::ESP)
        } else if v == 51 {
            Protocol::Standard(StandardProtocol::AH)
        } else if v == 52 {
            Protocol::Standard(StandardProtocol::I_NLSP)
        } else if v == 53 {
            Protocol::Standard(StandardProtocol::SWIPE)
        } else if v == 54 {
            Protocol::Standard(StandardProtocol::NARP)
        } else if v == 55 {
            Protocol::Standard(StandardProtocol::MOBILE)
        } else if v == 56 {
            Protocol::Standard(StandardProtocol::TLSP)
        } else if v == 57 {
            Protocol::Standard(StandardProtocol::SKIP)
        } else if v == 58 {
            Protocol::Standard(StandardProtocol::IPV6_ICMP)
        } else if v == 59 {
            Protocol::Standard(StandardProtocol::IPV6_NO_NXT)
        } else if v == 60 {
            Protocol::Standard(StandardProtocol::IPV6_OPTS)
        } else if v == 61 {
            Protocol::Standard(StandardProtocol::HOST_INTERNAL)
        } else if v == 62 {
            Protocol::Standard(StandardProtocol::CFTP)
        } else if v == 63 {
            Protocol::Standard(StandardProtocol::LOCAL_NETWORK)
        } else if v == 64 {
            Protocol::Standard(StandardProtocol::SAT_EXPAK)
        } else if v == 65 {
            Protocol::Standard(StandardProtocol::KRYPTOLAN)
        } else if v == 66 {
            Protocol::Standard(StandardProtocol::RVD)
        } else if v == 67 {
            Protocol::Standard(StandardProtocol::IPPC)
        } else if v == 68 {
            Protocol::Standard(StandardProtocol::ANY_DISTRIBUTED_FS)
        } else if v == 69 {
            Protocol::Standard(StandardProtocol::SAT_MON)
        } else if v == 70 {
            Protocol::Standard(StandardProtocol::VISA)
        } else if v == 71 {
            Protocol::Standard(StandardProtocol::IPCV)
        } else if v == 72 {
            Protocol::Standard(StandardProtocol::CPNX)
        } else if v == 73 {
            Protocol::Standard(StandardProtocol::CPHB)
        } else if v == 74 {
            Protocol::Standard(StandardProtocol::WSN)
        } else if v == 75 {
            Protocol::Standard(StandardProtocol::PVP)
        } else if v == 76 {
            Protocol::Standard(StandardProtocol::BR_SAT_MON)
        } else if v == 77 {
            Protocol::Standard(StandardProtocol::SUN_ND)
        } else if v == 78 {
            Protocol::Standard(StandardProtocol::WB_MON)
        } else if v == 79 {
            Protocol::Standard(StandardProtocol::WB_EXPAK)
        } else if v == 80 {
            Protocol::Standard(StandardProtocol::ISO_IP)
        } else if v == 81 {
            Protocol::Standard(StandardProtocol::VMTP)
        } else if v == 82 {
            Protocol::Standard(StandardProtocol::SECURE_VMTP)
        } else if v == 83 {
            Protocol::Standard(StandardProtocol::VINES)
        } else if v == 84 {
            Protocol::Standard(StandardProtocol::TTP)
        } else if v == 85 {
            Protocol::Standard(StandardProtocol::NSFNET_IGP)
        } else if v == 86 {
            Protocol::Standard(StandardProtocol::DGP)
        } else if v == 87 {
            Protocol::Standard(StandardProtocol::TCF)
        } else if v == 88 {
            Protocol::Standard(StandardProtocol::EIGRP)
        } else if v == 89 {
            Protocol::Standard(StandardProtocol::OSPFIGP)
        } else if v == 90 {
            Protocol::Standard(StandardProtocol::SPRITE_RPC)
        } else if v == 91 {
            Protocol::Standard(StandardProtocol::LARP)
        } else if v == 92 {
            Protocol::Standard(StandardProtocol::MTP)
        } else if v == 93 {
            Protocol::Standard(StandardProtocol::AX25)
        } else if v == 94 {
            Protocol::Standard(StandardProtocol::IPIP)
        } else if v == 95 {
            Protocol::Standard(StandardProtocol::MICP)
        } else if v == 96 {
            Protocol::Standard(StandardProtocol::SCC_SP)
        } else if v == 97 {
            Protocol::Standard(StandardProtocol::ETHERIP)
        } else if v == 98 {
            Protocol::Standard(StandardProtocol::ENCAP)
        } else if v == 99 {
            Protocol::Standard(StandardProtocol::PRIVATE_ENCRYPTION)
        } else if v == 100 {
            Protocol::Standard(StandardProtocol::GMTP)
        } else if v == 101 {
            Protocol::Standard(StandardProtocol::IFMP)
        } else if v == 102 {
            Protocol::Standard(StandardProtocol::PNNI)
        } else if v == 103 {
            Protocol::Standard(StandardProtocol::PIM)
        } else if v == 104 {
            Protocol::Standard(StandardProtocol::ARIS)
        } else if v == 105 {
            Protocol::Standard(StandardProtocol::SCPS)
        } else if v == 106 {
            Protocol::Standard(StandardProtocol::QNX)
        } else if v == 107 {
            Protocol::Standard(StandardProtocol::AN)
        } else if v == 108 {
            Protocol::Standard(StandardProtocol::IP_COMP)
        } else if v == 109 {
            Protocol::Standard(StandardProtocol::SNP)
        } else if v == 110 {
            Protocol::Standard(StandardProtocol::COMPAQ_PEER)
        } else if v == 111 {
            Protocol::Standard(StandardProtocol::IPX_IN_IP)
        } else if v == 112 {
            Protocol::Standard(StandardProtocol::VRRP)
        } else if v == 113 {
            Protocol::Standard(StandardProtocol::PGM)
        } else if v == 114 {
            Protocol::Standard(StandardProtocol::ZERO_HOP)
        } else if v == 115 {
            Protocol::Standard(StandardProtocol::L2TP)
        } else if v == 116 {
            Protocol::Standard(StandardProtocol::DDX)
        } else if v == 117 {
            Protocol::Standard(StandardProtocol::IATP)
        } else if v == 118 {
            Protocol::Standard(StandardProtocol::STP)
        } else if v == 119 {
            Protocol::Standard(StandardProtocol::SRP)
        } else if v == 120 {
            Protocol::Standard(StandardProtocol::UTI)
        } else if v == 121 {
            Protocol::Standard(StandardProtocol::SMP)
        } else if v == 122 {
            Protocol::Standard(StandardProtocol::SM)
        } else if v == 123 {
            Protocol::Standard(StandardProtocol::PTP)
        } else if v == 124 {
            Protocol::Standard(StandardProtocol::ISIS)
        } else if v == 125 {
            Protocol::Standard(StandardProtocol::FIRE)
        } else if v == 126 {
            Protocol::Standard(StandardProtocol::CRTP)
        } else if v == 127 {
            Protocol::Standard(StandardProtocol::CRUDP)
        } else if v == 128 {
            Protocol::Standard(StandardProtocol::SSCOPMCE)
        } else if v == 129 {
            Protocol::Standard(StandardProtocol::IPLT)
        } else if v == 130 {
            Protocol::Standard(StandardProtocol::SPS)
        } else if v == 131 {
            Protocol::Standard(StandardProtocol::PIPE)
        } else if v == 132 {
            Protocol::Standard(StandardProtocol::SCTP)
        } else if v == 133 {
            Protocol::Standard(StandardProtocol::FC)
        } else if v == 134 {
            Protocol::Standard(StandardProtocol::RSVP_E2E_IGNORE)
        } else if v == 135 {
            Protocol::Standard(StandardProtocol::MOBILITY)
        } else if v == 136 {
            Protocol::Standard(StandardProtocol::UDP_LITE)
        } else if v == 137 {
            Protocol::Standard(StandardProtocol::MPLS_IN_IP)
        } else if v == 138 {
            Protocol::Standard(StandardProtocol::MANET)
        } else if v == 139 {
            Protocol::Standard(StandardProtocol::HIP)
        } else if v == 140 {
            Protocol::Standard(StandardProtocol::SHIM6)
        } else if v == 141 {
            Protocol::Standard(StandardProtocol::WESP)
        } else if v == 142 {
            Protocol::Standard(StandardProtocol::ROHC)
        } else if v == 253 {
            Protocol::Standard(StandardProtocol::EXPERIMENTAL1)
        } else if v == 254 {
            Protocol::Standard(StandardProtocol::EXPERIMENTAL2)
        } else if v == 255 {
            Protocol::Standard(StandardProtocol::RESERVED)
        } else {
            Protocol::Standard(StandardProtocol::RESERVED)
        }
    }
}

impl StandardProtocol {
    pub fn as_u8(self) -> (r: u8)
        ensures
            r == spec_standard_value(self),
    {
        match self {
            StandardProtocol::HOPOPT => 0,
            StandardProtocol::ICMP => 1,
            StandardProtocol::IGMP => 2,
            StandardProtocol::GGP => 3,
            StandardProtocol::IPV4 => 4,
            StandardProtocol::ST => 5,
            StandardProtocol::TCP => 6,
            StandardProtocol::CBT => 7,
            StandardProtocol::EGP => 8,
            StandardProtocol::IGP => 9,
            StandardProtocol::BBN_RCC_MON => 10,
            StandardProtocol::NVP_II => 11,
            StandardProtocol::PUP => 12,
            StandardProtocol::ARGUS => 13,
            StandardProtocol::EMCON => 14,
            StandardProtocol::XNET => 15,
            StandardProtocol::CHAOS => 16,
            StandardProtocol::UDP => 17,
            StandardProtocol::MUX => 18,
            StandardProtocol::DCN_MEAS => 19,
            StandardProtocol::HMP => 20,
            StandardProtocol::PRM => 21,
            StandardProtocol::XNS_IDP => 22,
            StandardProtocol::TRUNK_1 => 23,
            StandardProtocol::TRUNK_2 => 24,
            StandardProtocol::LEAF_1 => 25,
            StandardProtocol::LEAF_2 => 26,
            StandardProtocol::RDP => 27,
            StandardProtocol::IRTP => 28,
            StandardProtocol::ISO_TP4 => 29,
            StandardProtocol::NETBLT => 30,
            StandardProtocol::MFE_NSP => 31,
            StandardProtocol::MERIT_INP => 32,
            StandardProtocol::DCCP => 33,
            StandardProtocol::THREE_PC => 34,
            StandardProtocol::IDPR => 35,
            StandardProtocol::XTP => 36,
            StandardProtocol::DDP => 37,
            StandardProtocol::IDPR_CMTP => 38,
            StandardProtocol::TPPP => 39,
            StandardProtocol::IL => 40,
            StandardProtocol::IPV6 => 41,
            StandardProtocol::SDRP => 42,
            StandardProtocol::IPV6_ROUTE => 43,
            StandardProtocol::IPV6_FRAG => 44,
            StandardProtocol::IDRP => 45,
            StandardProtocol::RSVP => 46,
            StandardProtocol::GRE => 47,
            StandardProtocol::DSR => 48,
            StandardProtocol::BNA => 49,
            StandardProtocol::ESP => 50,
            StandardProtocol::AH => 51,
            StandardProtocol::I_NLSP => 52,
            StandardProtocol::SWIPE => 53,
            StandardProtocol::NARP => 54,
            StandardProtocol::MOBILE => 55,
            StandardProtocol::TLSP => 56,
            StandardProtocol::SKIP => 57,
            StandardProtocol::IPV6_ICMP => 58,
            StandardProtocol::IPV6_NO_NXT => 59,
            StandardProtocol::IPV6_OPTS => 60,
            StandardProtocol::HOST_INTERNAL => 61,
            StandardProtocol::CFTP => 62,
            StandardProtocol::LOCAL_NETWORK => 63,
            StandardProtocol::SAT_EXPAK => 64,
            StandardProtocol::KRYPTOLAN => 65,
            StandardProtocol::RVD => 66,
            StandardProtocol::IPPC => 67,
            StandardProtocol::ANY_DISTRIBUTED_FS => 68,
            StandardProtocol::SAT_MON => 69,
            StandardProtocol::VISA => 70,
            StandardProtocol::IPCV => 71,
            StandardProtocol::CPNX => 72,
            StandardProtocol::CPHB => 73,
            StandardProtocol::WSN => 74,
            StandardProtocol::PVP => 75,
            StandardProtocol::BR_SAT_MON => 76,
            StandardProtocol::SUN_ND => 77,
            StandardProtocol::WB_MON => 78,
            StandardProtocol::WB_EXPAK => 79,
            StandardProtocol::ISO_IP => 80,
            StandardProtocol::VMTP => 81,
            StandardProtocol::SECURE_VMTP => 82,
            StandardProtocol::VINES => 83,
            StandardProtocol::TTP => 84,
            StandardProtocol::NSFNET_IGP => 85,
            StandardProtocol::DGP => 86,
            StandardProtocol::TCF => 87,
            StandardProtocol::EIGRP => 88,
            StandardProtocol::OSPFIGP => 89,
            StandardProtocol::SPRITE_RPC => 90,
            StandardProtocol::LARP => 91,
            StandardProtocol::MTP => 92,
            StandardProtocol::AX25 => 93,
            StandardProtocol::IPIP => 94,
            StandardProtocol::MICP => 95,
            StandardProtocol::SCC_SP => 96,
            StandardProtocol::ETHERIP => 97,
            StandardProtocol::ENCAP => 98,
            StandardProtocol::PRIVATE_ENCRYPTION => 99,
            StandardProtocol::GMTP => 100,
            StandardProtocol::IFMP => 101,
            StandardProtocol::PNNI => 102,
            StandardProtocol::PIM => 103,
            StandardProtocol::ARIS => 104,
            StandardProtocol::SCPS => 105,
            StandardProtocol::QNX => 106,
            StandardProtocol::AN => 107,
            StandardProtocol::IP_COMP => 108,
            StandardProtocol::SNP => 109,
            StandardProtocol::COMPAQ_PEER => 110,
            StandardProtocol::IPX_IN_IP => 111,
            StandardProtocol::VRRP => 112,
            StandardProtocol::PGM => 113,
            StandardProtocol::ZERO_HOP => 114,
            StandardProtocol::L2TP => 115,
            StandardProtocol::DDX => 116,
            StandardProtocol::IATP => 117,
            StandardProtocol::STP => 118,
            StandardProtocol::SRP => 119,
            StandardProtocol::UTI => 120,
            StandardProtocol::SMP => 121,
            StandardProtocol::SM => 122,
            StandardProtocol::PTP => 123,
            StandardProtocol::ISIS => 124,
            StandardProtocol::FIRE => 125,
            StandardProtocol::CRTP => 126,
            StandardProtocol::CRUDP => 127,
            StandardProtocol::SSCOPMCE => 128,
            StandardProtocol::IPLT => 129,
            StandardProtocol::SPS => 130,
            StandardProtocol::PIPE => 131,
            StandardProtocol::SCTP => 132,
            StandardProtocol::FC => 133,
            StandardProtocol::RSVP_E2E_IGNORE => 134,
            StandardProtocol::MOBILITY => 135,
            StandardProtocol::UDP_LITE => 136,
            StandardProtocol::MPLS_IN_IP => 137,
            StandardProtocol::MANET => 138,
            StandardProtocol::HIP => 139,
            StandardProtocol::SHIM6 => 140,
            StandardProtocol::WESP => 141,
            StandardProtocol::ROHC => 142,
            StandardProtocol::EXPERIMENTAL1 => 253,
            StandardProtocol::EXPERIMENTAL2 => 254,
            StandardProtocol::RESERVED => 255,
        }
    }
}

impl Protocol {
    /// Decodes a wire byte; every one of the 256 values produces a defined
    /// result.
    pub fn from_u8(value: u8) -> (r: Protocol)
        ensures
            r == spec_protocol_from(value),
    {
        if value >= 143 && value <= 252 {
            Protocol::Custom(value)
        } else {
            match value {
                0 => Protocol::Standard(StandardProtocol::HOPOPT),
                1 => Protocol::Standard(StandardProtocol::ICMP),
                2 => Protocol::Standard(StandardProtocol::IGMP),
                3 => Protocol::Standard(StandardProtocol::GGP),
                4 => Protocol::Standard(StandardProtocol::IPV4),
                5 => Protocol::Standard(StandardProtocol::ST),
                6 => Protocol::Standard(StandardProtocol::TCP),
                7 => Protocol::Standard(StandardProtocol::CBT),
                8 => Protocol::Standard(StandardProtocol::EGP),
                9 => Protocol::Standard(StandardProtocol::IGP),
                10 => Protocol::Standard(StandardProtocol::BBN_RCC_MON),
                11 => Protocol::Standard(StandardProtocol::NVP_II),
                12 => Protocol::Standard(StandardProtocol::PUP),
                13 => Protocol::Standard(StandardProtocol::ARGUS),
                14 => Protocol::Standard(StandardProtocol::EMCON),
                15 => Protocol::Standard(StandardProtocol::XNET),
                16 => Protocol::Standard(StandardProtocol::CHAOS),
                17 => Protocol::Standard(StandardProtocol::UDP),
                18 => Protocol::Standard(StandardProtocol::MUX),
                19 => Protocol::Standard(StandardProtocol::DCN_MEAS),
                20 => Protocol::Standard(StandardProtocol::HMP),
                21 => Protocol::Standard(StandardProtocol::PRM),
                22 => Protocol::Standard(StandardProtocol::XNS_IDP),
                23 => Protocol::Standard(StandardProtocol::TRUNK_1),
                24 => Protocol::Standard(StandardProtocol::TRUNK_2),
                25 => Protocol::Standard(StandardProtocol::LEAF_1),
                26 => Protocol::Standard(StandardProtocol::LEAF_2),
                27 => Protocol::Standard(StandardProtocol::RDP),
                28 => Protocol::Standard(StandardProtocol::IRTP),
                29 => Protocol::Standard(StandardProtocol::ISO_TP4),
                30 => Protocol::Standard(StandardProtocol::NETBLT),
                31 => Protocol::Standard(StandardProtocol::MFE_NSP),
                32 => Protocol::Standard(StandardProtocol::MERIT_INP),
                33 => Protocol::Standard(StandardProtocol::DCCP),
                34 => Protocol::Standard(StandardProtocol::THREE_PC),
                35 => Protocol::Standard(StandardProtocol::IDPR),
                36 => Protocol::Standard(StandardProtocol::XTP),
                37 => Protocol::Standard(StandardProtocol::DDP),
                38 => Protocol::Standard(StandardProtocol::IDPR_CMTP),
                39 => Protocol::Standard(StandardProtocol::TPPP),
                40 => Protocol::Standard(StandardProtocol::IL),
                41 => Protocol::Standard(StandardProtocol::IPV6),
                42 => Protocol::Standard(StandardProtocol::SDRP),
                43 => Protocol::Standard(StandardProtocol::IPV6_ROUTE),
                44 => Protocol::Standard(StandardProtocol::IPV6_FRAG),
                45 => Protocol::Standard(StandardProtocol::IDRP),
                46 => Protocol::Standard(StandardProtocol::RSVP),
                47 => Protocol::Standard(StandardProtocol::GRE),
                48 => Protocol::Standard(StandardProtocol::DSR),
                49 => Protocol::Standard(StandardProtocol::BNA),
                50 => Protocol::Standard(StandardProtocol::ESP),
                51 => Protocol::Standard(StandardProtocol::AH),
                52 => Protocol::Standard(StandardProtocol::I_NLSP),
                53 => Protocol::Standard(StandardProtocol::SWIPE),
                54 => Protocol::Standard(StandardProtocol::NARP),
                55 => Protocol::Standard(StandardProtocol::MOBILE),
                56 => Protocol::Standard(StandardProtocol::TLSP),
                57 => Protocol::Standard(StandardProtocol::SKIP),
                58 => Protocol::Standard(StandardProtocol::IPV6_ICMP),
                59 => Protocol::Standard(StandardProtocol::IPV6_NO_NXT),
                60 => Protocol::Standard(StandardProtocol::IPV6_OPTS),
                61 => Protocol::Standard(StandardProtocol::HOST_INTERNAL),
                62 => Protocol::Standard(StandardProtocol::CFTP),
                63 => Protocol::Standard(StandardProtocol::LOCAL_NETWORK),
                64 => Protocol::Standard(StandardProtocol::SAT_EXPAK),
                65 => Protocol::Standard(StandardProtocol::KRYPTOLAN),
                66 => Protocol::Standard(StandardProtocol::RVD),
                67 => Protocol::Standard(StandardProtocol::IPPC),
                68 => Protocol::Standard(StandardProtocol::ANY_DISTRIBUTED_FS),
                69 => Protocol::Standard(StandardProtocol::SAT_MON),
                70 => Protocol::Standard(StandardProtocol::VISA),
                71 => Protocol::Standard(StandardProtocol::IPCV),
                72 => Protocol::Standard(StandardProtocol::CPNX),
                73 => Protocol::Standard(StandardProtocol::CPHB),
                74 => Protocol::Standard(StandardProtocol::WSN),
                75 => Protocol::Standard(StandardProtocol::PVP),
                76 => Protocol::Standard(StandardProtocol::BR_SAT_MON),
                77 => Protocol::Standard(StandardProtocol::SUN_ND),
                78 => Protocol::Standard(StandardProtocol::WB_MON),
                79 => Protocol::Standard(StandardProtocol::WB_EXPAK),
                80 => Protocol::Standard(StandardProtocol::ISO_IP),
                81 => Protocol::Standard(StandardProtocol::VMTP),
                82 => Protocol::Standard(StandardProtocol::SECURE_VMTP),
                83 => Protocol::Standard(StandardProtocol::VINES),
                84 => Protocol::Standard(StandardProtocol::TTP),
                85 => Protocol::Standard(StandardProtocol::NSFNET_IGP),
                86 => Protocol::Standard(StandardProtocol::DGP),
                87 => Protocol::Standard(StandardProtocol::TCF),
                88 => Protocol::Standard(StandardProtocol::EIGRP),
                89 => Protocol::Standard(StandardProtocol::OSPFIGP),
                90 => Protocol::Standard(StandardProtocol::SPRITE_RPC),
                91 => Protocol::Standard(StandardProtocol::LARP),
                92 => Protocol::Standard(StandardProtocol::MTP),
                93 => Protocol::Standard(StandardProtocol::AX25),
                94 => Protocol::Standard(StandardProtocol::IPIP),
                95 => Protocol::Standard(StandardProtocol::MICP),
                96 => Protocol::Standard(StandardProtocol::SCC_SP),
                97 => Protocol::Standard(StandardProtocol::ETHERIP),
                98 => Protocol::Standard(StandardProtocol::ENCAP),
                99 => Protocol::Standard(StandardProtocol::PRIVATE_ENCRYPTION),
                100 => Protocol::Standard(StandardProtocol::GMTP),
                101 => Protocol::Standard(StandardProtocol::IFMP),
                102 => Protocol::Standard(StandardProtocol::PNNI),
                103 => Protocol::Standard(StandardProtocol::PIM),
                104 => Protocol::Standard(StandardProtocol::ARIS),
                105 => Protocol::Standard(StandardProtocol::SCPS),
                106 => Protocol::Standard(StandardProtocol::QNX),
                107 => Protocol::Standard(StandardProtocol::AN),
                108 => Protocol::Standard(StandardProtocol::IP_COMP),
                109 => Protocol::Standard(StandardProtocol::SNP),
                110 => Protocol::Standard(StandardProtocol::COMPAQ_PEER),
                111 => Protocol::Standard(StandardProtocol::IPX_IN_IP),
                112 => Protocol::Standard(StandardProtocol::VRRP),
                113 => Protocol::Standard(StandardProtocol::PGM),
                114 => Protocol::Standard(StandardProtocol::ZERO_HOP),
                115 => Protocol::Standard(StandardProtocol::L2TP),
                116 => Protocol::Standard(StandardProtocol::DDX),
                117 => Protocol::Standard(StandardProtocol::IATP),
                118 => Protocol::Standard(StandardProtocol::STP),
                119 => Protocol::Standard(StandardProtocol::SRP),
                120 => Protocol::Standard(StandardProtocol::UTI),
                121 => Protocol::Standard(StandardProtocol::SMP),
                122 => Protocol::Standard(StandardProtocol::SM),
                123 => Protocol::Standard(StandardProtocol::PTP),
                124 => Protocol::Standard(StandardProtocol::ISIS),
                125 => Protocol::Standard(StandardProtocol::FIRE),
                126 => Protocol::Standard(StandardProtocol::CRTP),
                127 => Protocol::Standard(StandardProtocol::CRUDP),
                128 => Protocol::Standard(StandardProtocol::SSCOPMCE),
                129 => Protocol::Standard(StandardProtocol::IPLT),
                130 => Protocol::Standard(StandardProtocol::SPS),
                131 => Protocol::Standard(StandardProtocol::PIPE),
                132 => Protocol::Standard(StandardProtocol::SCTP),
                133 => Protocol::Standard(StandardProtocol::FC),
                134 => Protocol::Standard(StandardProtocol::RSVP_E2E_IGNORE),
                135 => Protocol::Standard(StandardProtocol::MOBILITY),
                136 => Protocol::Standard(StandardProtocol::UDP_LITE),
                137 => Protocol::Standard(StandardProtocol::MPLS_IN_IP),
                138 => Protocol::Standard(StandardProtocol::MANET),
                139 => Protocol::Standard(StandardProtocol::HIP),
                140 => Protocol::Standard(StandardProtocol::SHIM6),
                141 => Protocol::Standard(StandardProtocol::WESP),
                142 => Protocol::Standard(StandardProtocol::ROHC),
                253 => Protocol::Standard(StandardProtocol::EXPERIMENTAL1),
                254 => Protocol::Standard(StandardProtocol::EXPERIMENTAL2),
                255 => Protocol::Standard(StandardProtocol::RESERVED),
                _ => Protocol::Standard(StandardProtocol::RESERVED),
            }
        }
    }

    pub fn as_u8(self) -> (r: u8)
        ensures
            r == spec_protocol_value(self),
    {
        match self {
            Protocol::Standard(s) => s.as_u8(),
            Protocol::Custom(v) => v,
        }
    }

    /// A protocol is valid when it is not RESERVED and a custom value lies in
    /// the unassigned band.
    pub fn is_valid(self) -> (r: bool)
        ensures
            r == spec_protocol_is_valid(self),
    {
        match self {
            Protocol::Standard(s) => s.as_u8() != 255,
            Protocol::Custom(v) => v >= 143 && v <= 252,
        }
    }
}

pub open spec fn spec_protocol_is_valid(p: Protocol) -> bool {
    match p {
        Protocol::Standard(s) => spec_standard_value(s) != 255,
        Protocol::Custom(v) => 143 <= v <= 252,
    }
}

/// Decoding the wire byte of a valid protocol gives that protocol back.
pub proof fn lemma_protocol_round_trip(p: Protocol)
    requires
        spec_protocol_is_valid(p),
    ensures
        spec_protocol_from(spec_protocol_value(p)) == p,
{
}

} // verus!
