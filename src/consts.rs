use vstd::prelude::*;

verus! {

/// Name under which the kernel registers the nl80211 generic netlink family.
pub const NL_80211_GENL_NAME: &'static str = "nl80211";

/// Version of the nl80211 generic netlink interface that requests carry.
pub const NL_80211_GENL_VERSION: u8 = 1;

/// Generic netlink commands of the nl80211 family.
///
/// Every 16-bit value maps to a symbol; values outside the known range map
/// to `UnrecognizedVariant`, which keeps the raw value.
#[derive(Debug, Clone, Copy, PartialEq, Eq, Structural)]
pub enum Nl80211Cmd {
    CmdUnspec,
    CmdGetWiphy,
    CmdSetWiphy,
    CmdNewWiphy,
    CmdDelWiphy,
    CmdGetInterface,
    CmdSetInterface,
    CmdNewInterface,
    CmdDelInterface,
    CmdGetKey,
    CmdSetKey,
    CmdNewKey,
    CmdDelKey,
    CmdGetBeacon,
    CmdSetBeacon,
    CmdStartAp,
    CmdStopAp,
    CmdGetStation,
    CmdSetStation,
    CmdNewStation,
    CmdDelStation,
    CmdGetMpath,
    CmdSetMpath,
    CmdNewMpath,
    CmdDelMpath,
    CmdSetBss,
    CmdSetReg,
    CmdReqSetReg,
    CmdGetMeshConfig,
    CmdSetMeshConfig,
    CmdSetMgmtExtraIe,
    CmdGetReg,
    CmdGetScan,
    CmdTriggerScan,
    CmdNewScanResults,
    CmdScanAborted,
    UnrecognizedVariant(u16),
}

impl Nl80211Cmd {
    /// The symbol of a wire value.
    pub open spec fn spec_from_u16(v: u16) -> Nl80211Cmd {
        match v {
            0 => Nl80211Cmd::CmdUnspec,
            1 => Nl80211Cmd::CmdGetWiphy,
            2 => Nl80211Cmd::CmdSetWiphy,
            3 => Nl80211Cmd::CmdNewWiphy,
            4 => Nl80211Cmd::CmdDelWiphy,
            5 => Nl80211Cmd::CmdGetInterface,
            6 => Nl80211Cmd::CmdSetInterface,
            7 => Nl80211Cmd::CmdNewInterface,
            8 => Nl80211Cmd::CmdDelInterface,
            9 => Nl80211Cmd::CmdGetKey,
            10 => Nl80211Cmd::CmdSetKey,
            11 => Nl80211Cmd::CmdNewKey,
            12 => Nl80211Cmd::CmdDelKey,
            13 => Nl80211Cmd::CmdGetBeacon,
            14 => Nl80211Cmd::CmdSetBeacon,
            15 => Nl80211Cmd::CmdStartAp,
            16 => Nl80211Cmd::CmdStopAp,
            17 => Nl80211Cmd::CmdGetStation,
            18 => Nl80211Cmd::CmdSetStation,
            19 => Nl80211Cmd::CmdNewStation,
            20 => Nl80211Cmd::CmdDelStation,
            21 => Nl80211Cmd::CmdGetMpath,
            22 => Nl80211Cmd::CmdSetMpath,
            23 => Nl80211Cmd::CmdNewMpath,
            24 => Nl80211Cmd::CmdDelMpath,
            25 => Nl80211Cmd::CmdSetBss,
            26 => Nl80211Cmd::CmdSetReg,
            27 => Nl80211Cmd::CmdReqSetReg,
            28 => Nl80211Cmd::CmdGetMeshConfig,
            29 => Nl80211Cmd::CmdSetMeshConfig,
            30 => Nl80211Cmd::CmdSetMgmtExtraIe,
            31 => Nl80211Cmd::CmdGetReg,
            32 => Nl80211Cmd::CmdGetScan,
            33 => Nl80211Cmd::CmdTriggerScan,
            34 => Nl80211Cmd::CmdNewScanResults,
            35 => Nl80211Cmd::CmdScanAborted,
            _ => Nl80211Cmd::UnrecognizedVariant(v),
        }
    }

    /// The wire value of a symbol.
    pub open spec fn spec_to_u16(self) -> u16 {
        match self {
            Nl80211Cmd::CmdUnspec => 0,
            Nl80211Cmd::CmdGetWiphy => 1,
            Nl80211Cmd::CmdSetWiphy => 2,
            Nl80211Cmd::CmdNewWiphy => 3,
            Nl80211Cmd::CmdDelWiphy => 4,
            Nl80211Cmd::CmdGetInterface => 5,
            Nl80211Cmd::CmdSetInterface => 6,
            Nl80211Cmd::CmdNewInterface => 7,
            Nl80211Cmd::CmdDelInterface => 8,
            Nl80211Cmd::CmdGetKey => 9,
            Nl80211Cmd::CmdSetKey => 10,
            Nl80211Cmd::CmdNewKey => 11,
            Nl80211Cmd::CmdDelKey => 12,
            Nl80211Cmd::CmdGetBeacon => 13,
            Nl80211Cmd::CmdSetBeacon => 14,
            Nl80211Cmd::CmdStartAp => 15,
            Nl80211Cmd::CmdStopAp => 16,
            Nl80211Cmd::CmdGetStation => 17,
            Nl80211Cmd::CmdSetStation => 18,
            Nl80211Cmd::CmdNewStation => 19,
            Nl80211Cmd::CmdDelStation => 20,
            Nl80211Cmd::CmdGetMpath => 21,
            Nl80211Cmd::CmdSetMpath => 22,
            Nl80211Cmd::CmdNewMpath => 23,
            Nl80211Cmd::CmdDelMpath => 24,
            Nl80211Cmd::CmdSetBss => 25,
            Nl80211Cmd::CmdSetReg => 26,
            Nl80211Cmd::CmdReqSetReg => 27,
            Nl80211Cmd::CmdGetMeshConfig => 28,
            Nl80211Cmd::CmdSetMeshConfig => 29,
            Nl80211Cmd::CmdSetMgmtExtraIe => 30,
            Nl80211Cmd::CmdGetReg => 31,
            Nl80211Cmd::CmdGetScan => 32,
            Nl80211Cmd::CmdTriggerScan => 33,
            Nl80211Cmd::CmdNewScanResults => 34,
            Nl80211Cmd::CmdScanAborted => 35,
            Nl80211Cmd::UnrecognizedVariant(v) => v,
        }
    }

    /// The symbol of a wire value; never fails.
    pub fn from_u16(v: u16) -> (r: Nl80211Cmd)
        ensures
            r == Self::spec_from_u16(v),
    {
        match v {
            0 => Nl80211Cmd::CmdUnspec,
            1 => Nl80211Cmd::CmdGetWiphy,
            2 => Nl80211Cmd::CmdSetWiphy,
            3 => Nl80211Cmd::CmdNewWiphy,
            4 => Nl80211Cmd::CmdDelWiphy,
            5 => Nl80211Cmd::CmdGetInterface,
            6 => Nl80211Cmd::CmdSetInterface,
            7 => Nl80211Cmd::CmdNewInterface,
            8 => Nl80211Cmd::CmdDelInterface,
            9 => Nl80211Cmd::CmdGetKey,
            10 => Nl80211Cmd::CmdSetKey,
            11 => Nl80211Cmd::CmdNewKey,
            12 => Nl80211Cmd::CmdDelKey,
            13 => Nl80211Cmd::CmdGetBeacon,
            14 => Nl80211Cmd::CmdSetBeacon,
            15 => Nl80211Cmd::CmdStartAp,
            16 => Nl80211Cmd::CmdStopAp,
            17 => Nl80211Cmd::CmdGetStation,
            18 => Nl80211Cmd::CmdSetStation,
            19 => Nl80211Cmd::CmdNewStation,
            20 => Nl80211Cmd::CmdDelStation,
            21 => Nl80211Cmd::CmdGetMpath,
            22 => Nl80211Cmd::CmdSetMpath,
            23 => Nl80211Cmd::CmdNewMpath,
            24 => Nl80211Cmd::CmdDelMpath,
            25 => Nl80211Cmd::CmdSetBss,
            26 => Nl80211Cmd::CmdSetReg,
            27 => Nl80211Cmd::CmdReqSetReg,
            28 => Nl80211Cmd::CmdGetMeshConfig,
            29 => Nl80211Cmd::CmdSetMeshConfig,
            30 => Nl80211Cmd::CmdSetMgmtExtraIe,
            31 => Nl80211Cmd::CmdGetReg,
            32 => Nl80211Cmd::CmdGetScan,
            33 => Nl80211Cmd::CmdTriggerScan,
            34 => Nl80211Cmd::CmdNewScanResults,
            35 => Nl80211Cmd::CmdScanAborted,
            _ => Nl80211Cmd::UnrecognizedVariant(v),
        }
    }

    /// The wire value of this symbol.
    pub fn to_u16(&self) -> (r: u16)
        ensures
            r == self.spec_to_u16(),
    {
        match self {
            Nl80211Cmd::CmdUnspec => 0,
            Nl80211Cmd::CmdGetWiphy => 1,
            Nl80211Cmd::CmdSetWiphy => 2,
            Nl80211Cmd::CmdNewWiphy => 3,
            Nl80211Cmd::CmdDelWiphy => 4,
            Nl80211Cmd::CmdGetInterface => 5,
            Nl80211Cmd::CmdSetInterface => 6,
            Nl80211Cmd::CmdNewInterface => 7,
            Nl80211Cmd::CmdDelInterface => 8,
            Nl80211Cmd::CmdGetKey => 9,
            Nl80211Cmd::CmdSetKey => 10,
            Nl80211Cmd::CmdNewKey => 11,
            Nl80211Cmd::CmdDelKey => 12,
            Nl80211Cmd::CmdGetBeacon => 13,
            Nl80211Cmd::CmdSetBeacon => 14,
            Nl80211Cmd::CmdStartAp => 15,
            Nl80211Cmd::CmdStopAp => 16,
            Nl80211Cmd::CmdGetStation => 17,
            Nl80211Cmd::CmdSetStation => 18,
            Nl80211Cmd::CmdNewStation => 19,
            Nl80211Cmd::CmdDelStation => 20,
            Nl80211Cmd::CmdGetMpath => 21,
            Nl80211Cmd::CmdSetMpath => 22,
            Nl80211Cmd::CmdNewMpath => 23,
            Nl80211Cmd::CmdDelMpath => 24,
            Nl80211Cmd::CmdSetBss => 25,
            Nl80211Cmd::CmdSetReg => 26,
            Nl80211Cmd::CmdReqSetReg => 27,
            Nl80211Cmd::CmdGetMeshConfig => 28,
            Nl80211Cmd::CmdSetMeshConfig => 29,
            Nl80211Cmd::CmdSetMgmtExtraIe => 30,
            Nl80211Cmd::CmdGetReg => 31,
            Nl80211Cmd::CmdGetScan => 32,
            Nl80211Cmd::CmdTriggerScan => 33,
            Nl80211Cmd::CmdNewScanResults => 34,
            Nl80211Cmd::CmdScanAborted => 35,
            Nl80211Cmd::UnrecognizedVariant(v) => *v,
        }
    }

    /// Reading a wire value as a symbol and writing it back gives the same value.
    pub proof fn lemma_round_trip(v: u16)
        ensures
            Self::spec_from_u16(v).spec_to_u16() == v,
    {
    }
}

/// Top-level nl80211 attribute tags.
///
/// Every 16-bit value maps to a symbol; values outside the known range map
/// to `UnrecognizedVariant`, which keeps the raw value.
#[derive(Debug, Clone, Copy, PartialEq, Eq, Structural)]
pub enum Nl80211Attr {
    AttrUnspec,
    AttrWiphy,
    AttrWiphyName,
    AttrIfindex,
    AttrIfname,
    AttrIftype,
    AttrMac,
    AttrKeyData,
    AttrKeyIdx,
    AttrKeyCipher,
    AttrKeySeq,
    AttrKeyDefault,
    AttrBeaconInterval,
    AttrDtimPeriod,
    AttrBeaconHead,
    AttrBeaconTail,
    AttrStaAid,
    AttrStaFlags,
    AttrStaListenInterval,
    AttrStaSupportedRates,
    AttrStaVlan,
    AttrStaInfo,
    AttrWiphyBands,
    AttrMntrFlags,
    AttrMeshId,
    AttrStaPlinkAction,
    AttrMpathNextHop,
    AttrMpathInfo,
    AttrBssCtsProt,
    AttrBssShortPreamble,
    AttrBssShortSlotTime,
    AttrHtCapability,
    AttrSupportedIftypes,
    AttrRegAlpha2,
    AttrRegRules,
    AttrMeshConfig,
    AttrBssBasicRates,
    AttrWiphyTxqParams,
    AttrWiphyFreq,
    AttrWiphyChannelType,
    AttrKeyDefaultMgmt,
    AttrMgmtSubtype,
    AttrIe,
    AttrMaxNumScanSsids,
    AttrScanFrequencies,
    AttrScanSsids,
    AttrGeneration,
    AttrBss,
    AttrRegInitiator,
    AttrRegType,
    AttrSupportedCommands,
    AttrFrame,
    AttrSsid,
    AttrAuthType,
    AttrReasonCode,
    AttrKeyType,
    AttrMaxScanIeLen,
    AttrCipherSuites,
    AttrFreqBefore,
    AttrFreqAfter,
    AttrFreqFixed,
    AttrWiphyRetryShort,
    AttrWiphyRetryLong,
    AttrWiphyFragThreshold,
    AttrWiphyRtsThreshold,
    AttrTimedOut,
    AttrUseMfp,
    AttrStaFlags2,
    AttrControlPort,
    AttrTestdata,
    AttrPrivacy,
    AttrDisconnectedByAp,
    AttrStatusCode,
    AttrCipherSuitesPairwise,
    AttrCipherSuiteGroup,
    AttrWpaVersions,
    AttrAkmSuites,
    AttrReqIe,
    AttrRespIe,
    AttrPrevBssid,
    AttrKey,
    AttrKeys,
    AttrPid,
    Attr4addr,
    AttrSurveyInfo,
    AttrPmkid,
    AttrMaxNumPmkids,
    AttrDuration,
    AttrCookie,
    AttrWiphyCoverageClass,
    AttrTxRates,
    AttrFrameMatch,
    AttrAck,
    AttrPsState,
    AttrCqm,
    AttrLocalStateChange,
    AttrApIsolate,
    AttrWiphyTxPowerSetting,
    AttrWiphyTxPowerLevel,
    AttrTxFrameTypes,
    AttrRxFrameTypes,
    AttrFrameType,
    AttrControlPortEthertype,
    AttrControlPortNoEncrypt,
    AttrSupportIbssRsn,
    AttrWiphyAntennaTx,
    AttrWiphyAntennaRx,
    AttrMcastRate,
    AttrOffchannelTxOk,
    AttrBssHtOpmode,
    AttrKeyDefaultTypes,
    AttrMaxRemainOnChannelDuration,
    AttrMeshSetup,
    AttrWiphyAntennaAvailTx,
    AttrWiphyAntennaAvailRx,
    AttrSupportMeshAuth,
    AttrStaPlinkState,
    AttrWowlanTriggers,
    AttrWowlanTriggersSupported,
    AttrSchedScanInterval,
    AttrInterfaceCombinations,
    AttrSoftwareIftypes,
    AttrRekeyData,
    AttrMaxNumSchedScanSsids,
    AttrMaxSchedScanIeLen,
    AttrScanSuppRates,
    AttrHiddenSsid,
    AttrIeProbeResp,
    AttrIeAssocResp,
    AttrStaWme,
    AttrSupportApUapsd,
    AttrRoamSupport,
    AttrSchedScanMatch,
    AttrMaxMatchSets,
    AttrPmksaCandidate,
    AttrTxNoCckRate,
    AttrTdlsAction,
    AttrTdlsDialogToken,
    AttrTdlsOperation,
    AttrTdlsSupport,
    AttrTdlsExternalSetup,
    AttrDeviceApSme,
    AttrDontWaitForAck,
    AttrFeatureFlags,
    AttrProbeRespOffload,
    AttrProbeResp,
    AttrDfsRegion,
    AttrDisableHt,
    AttrHtCapabilityMask,
    AttrNoackMap,
    AttrInactivityTimeout,
    AttrRxSignalDbm,
    AttrBgScanPeriod,
    AttrWdev,
    AttrUserRegHintType,
    AttrConnFailedReason,
    AttrSaeData,
    AttrVhtCapability,
    AttrScanFlags,
    AttrChannelWidth,
    AttrCenterFreq1,
    AttrCenterFreq2,
    AttrP2pCtwindow,
    AttrP2pOppps,
    AttrLocalMeshPowerMode,
    AttrAclPolicy,
    AttrMacAddrs,
    AttrMacAclMax,
    AttrRadarEvent,
    AttrExtCapa,
    AttrExtCapaMask,
    AttrStaCapability,
    AttrStaExtCapability,
    AttrProtocolFeatures,
    AttrSplitWiphyDump,
    AttrDisableVht,
    AttrVhtCapabilityMask,
    AttrMdid,
    AttrIeRic,
    AttrCritProtId,
    AttrMaxCritProtDuration,
    AttrPeerAid,
    AttrCoalesceRule,
    AttrChSwitchCount,
    AttrChSwitchBlockTx,
    AttrCsaIes,
    AttrCsaCOffBeacon,
    AttrCsaCOffPresp,
    AttrRxmgmtFlags,
    AttrStaSupportedChannels,
    AttrStaSupportedOperClasses,
    AttrHandleDfs,
    AttrSupport5Mhz,
    AttrSupport10Mhz,
    AttrOpmodeNotif,
    AttrVendorId,
    AttrVendorSubcmd,
    AttrVendorData,
    AttrVendorEvents,
    AttrQosMap,
    AttrMacHint,
    AttrWiphyFreqHint,
    AttrMaxApAssocSta,
    AttrTdlsPeerCapability,
    AttrSocketOwner,
    AttrCsaCOffsetsTx,
    AttrMaxCsaCounters,
    AttrTdlsInitiator,
    AttrUseRrm,
    AttrWiphyDynAck,
    AttrTsid,
    AttrUserPrio,
    AttrAdmittedTime,
    AttrSmpsMode,
    AttrOperClass,
    AttrMacMask,
    AttrWiphySelfManagedReg,
    AttrExtFeatures,
    AttrSurveyRadioStats,
    AttrNetnsFd,
    AttrSchedScanDelay,
    AttrRegIndoor,
    AttrMaxNumSchedScanPlans,
    AttrMaxScanPlanInterval,
    AttrMaxScanPlanIterations,
    AttrSchedScanPlans,
    AttrPbss,
    AttrBssSelect,
    AttrStaSupportP2pPs,
    AttrPad,
    AttrIftypeExtCapa,
    AttrMuMimoGroupData,
    AttrMuMimoFollowMacAddr,
    AttrScanStartTimeTsf,
    AttrScanStartTimeTsfBssid,
    AttrMeasurementDuration,
    AttrMeasurementDurationMandatory,
    AttrMeshPeerAid,
    AttrNanMasterPref,
    AttrNanDual,
    AttrNanFunc,
    AttrNanMatch,
    UnrecognizedVariant(u16),
}

impl Nl80211Attr {
    /// The symbol of a wire value.
    pub open spec fn spec_from_u16(v: u16) -> Nl80211Attr {
        match v {
            0 => Nl80211Attr::AttrUnspec,
            1 => Nl80211Attr::AttrWiphy,
            2 => Nl80211Attr::AttrWiphyName,
            3 => Nl80211Attr::AttrIfindex,
            4 => Nl80211Attr::AttrIfname,
            5 => Nl80211Attr::AttrIftype,
            6 => Nl80211Attr::AttrMac,
            7 => Nl80211Attr::AttrKeyData,
            8 => Nl80211Attr::AttrKeyIdx,
            9 => Nl80211Attr::AttrKeyCipher,
            10 => Nl80211Attr::AttrKeySeq,
            11 => Nl80211Attr::AttrKeyDefault,
            12 => Nl80211Attr::AttrBeaconInterval,
            13 => Nl80211Attr::AttrDtimPeriod,
            14 => Nl80211Attr::AttrBeaconHead,
            15 => Nl80211Attr::AttrBeaconTail,
            16 => Nl80211Attr::AttrStaAid,
            17 => Nl80211Attr::AttrStaFlags,
            18 => Nl80211Attr::AttrStaListenInterval,
            19 => Nl80211Attr::AttrStaSupportedRates,
            20 => Nl80211Attr::AttrStaVlan,
            21 => Nl80211Attr::AttrStaInfo,
            22 => Nl80211Attr::AttrWiphyBands,
            23 => Nl80211Attr::AttrMntrFlags,
            24 => Nl80211Attr::AttrMeshId,
            25 => Nl80211Attr::AttrStaPlinkAction,
            26 => Nl80211Attr::AttrMpathNextHop,
            27 => Nl80211Attr::AttrMpathInfo,
            28 => Nl80211Attr::AttrBssCtsProt,
            29 => Nl80211Attr::AttrBssShortPreamble,
            30 => Nl80211Attr::AttrBssShortSlotTime,
            31 => Nl80211Attr::AttrHtCapability,
            32 => Nl80211Attr::AttrSupportedIftypes,
            33 => Nl80211Attr::AttrRegAlpha2,
            34 => Nl80211Attr::AttrRegRules,
            35 => Nl80211Attr::AttrMeshConfig,
            36 => Nl80211Attr::AttrBssBasicRates,
            37 => Nl80211Attr::AttrWiphyTxqParams,
            38 => Nl80211Attr::AttrWiphyFreq,
            39 => Nl80211Attr::AttrWiphyChannelType,
            40 => Nl80211Attr::AttrKeyDefaultMgmt,
            41 => Nl80211Attr::AttrMgmtSubtype,
            42 => Nl80211Attr::AttrIe,
            43 => Nl80211Attr::AttrMaxNumScanSsids,
            44 => Nl80211Attr::AttrScanFrequencies,
            45 => Nl80211Attr::AttrScanSsids,
            46 => Nl80211Attr::AttrGeneration,
            47 => Nl80211Attr::AttrBss,
            48 => Nl80211Attr::AttrRegInitiator,
            49 => Nl80211Attr::AttrRegType,
            50 => Nl80211Attr::AttrSupportedCommands,
            51 => Nl80211Attr::AttrFrame,
            52 => Nl80211Attr::AttrSsid,
            53 => Nl80211Attr::AttrAuthType,
            54 => Nl80211Attr::AttrReasonCode,
            55 => Nl80211Attr::AttrKeyType,
            56 => Nl80211Attr::AttrMaxScanIeLen,
            57 => Nl80211Attr::AttrCipherSuites,
            58 => Nl80211Attr::AttrFreqBefore,
            59 => Nl80211Attr::AttrFreqAfter,
            60 => Nl80211Attr::AttrFreqFixed,
            61 => Nl80211Attr::AttrWiphyRetryShort,
            62 => Nl80211Attr::AttrWiphyRetryLong,
            63 => Nl80211Attr::AttrWiphyFragThreshold,
            64 => Nl80211Attr::AttrWiphyRtsThreshold,
            65 => Nl80211Attr::AttrTimedOut,
            66 => Nl80211Attr::AttrUseMfp,
            67 => Nl80211Attr::AttrStaFlags2,
            68 => Nl80211Attr::AttrControlPort,
            69 => Nl80211Attr::AttrTestdata,
            70 => Nl80211Attr::AttrPrivacy,
            71 => Nl80211Attr::AttrDisconnectedByAp,
            72 => Nl80211Attr::AttrStatusCode,
            73 => Nl80211Attr::AttrCipherSuitesPairwise,
            74 => Nl80211Attr::AttrCipherSuiteGroup,
            75 => Nl80211Attr::AttrWpaVersions,
            76 => Nl80211Attr::AttrAkmSuites,
            77 => Nl80211Attr::AttrReqIe,
            78 => Nl80211Attr::AttrRespIe,
            79 => Nl80211Attr::AttrPrevBssid,
            80 => Nl80211Attr::AttrKey,
            81 => Nl80211Attr::AttrKeys,
            82 => Nl80211Attr::AttrPid,
            83 => Nl80211Attr::Attr4addr,
            84 => Nl80211Attr::AttrSurveyInfo,
            85 => Nl80211Attr::AttrPmkid,
            86 => Nl80211Attr::AttrMaxNumPmkids,
            87 => Nl80211Attr::AttrDuration,
            88 => Nl80211Attr::AttrCookie,
            89 => Nl80211Attr::AttrWiphyCoverageClass,
            90 => Nl80211Attr::AttrTxRates,
            91 => Nl80211Attr::AttrFrameMatch,
            92 => Nl80211Attr::AttrAck,
            93 => Nl80211Attr::AttrPsState,
            94 => Nl80211Attr::AttrCqm,
            95 => Nl80211Attr::AttrLocalStateChange,
            96 => Nl80211Attr::AttrApIsolate,
            97 => Nl80211Attr::AttrWiphyTxPowerSetting,
            98 => Nl80211Attr::AttrWiphyTxPowerLevel,
            99 => Nl80211Attr::AttrTxFrameTypes,
            100 => Nl80211Attr::AttrRxFrameTypes,
            101 => Nl80211Attr::AttrFrameType,
            102 => Nl80211Attr::AttrControlPortEthertype,
            103 => Nl80211Attr::AttrControlPortNoEncrypt,
            104 => Nl80211Attr::AttrSupportIbssRsn,
            105 => Nl80211Attr::AttrWiphyAntennaTx,
            106 => Nl80211Attr::AttrWiphyAntennaRx,
            107 => Nl80211Attr::AttrMcastRate,
            108 => Nl80211Attr::AttrOffchannelTxOk,
            109 => Nl80211Attr::AttrBssHtOpmode,
            110 => Nl80211Attr::AttrKeyDefaultTypes,
            111 => Nl80211Attr::AttrMaxRemainOnChannelDuration,
            112 => Nl80211Attr::AttrMeshSetup,
            113 => Nl80211Attr::AttrWiphyAntennaAvailTx,
            114 => Nl80211Attr::AttrWiphyAntennaAvailRx,
            115 => Nl80211Attr::AttrSupportMeshAuth,
            116 => Nl80211Attr::AttrStaPlinkState,
            117 => Nl80211Attr::AttrWowlanTriggers,
            118 => Nl80211Attr::AttrWowlanTriggersSupported,
            119 => Nl80211Attr::AttrSchedScanInterval,
            120 => Nl80211Attr::AttrInterfaceCombinations,
            121 => Nl80211Attr::AttrSoftwareIftypes,
            122 => Nl80211Attr::AttrRekeyData,
            123 => Nl80211Attr::AttrMaxNumSchedScanSsids,
            124 => Nl80211Attr::AttrMaxSchedScanIeLen,
            125 => Nl80211Attr::AttrScanSuppRates,
            126 => Nl80211Attr::AttrHiddenSsid,
            127 => Nl80211Attr::AttrIeProbeResp,
            128 => Nl80211Attr::AttrIeAssocResp,
            129 => Nl80211Attr::AttrStaWme,
            130 => Nl80211Attr::AttrSupportApUapsd,
            131 => Nl80211Attr::AttrRoamSupport,
            132 => Nl80211Attr::AttrSchedScanMatch,
            133 => Nl80211Attr::AttrMaxMatchSets,
            134 => Nl80211Attr::AttrPmksaCandidate,
            135 => Nl80211Attr::AttrTxNoCckRate,
            136 => Nl80211Attr::AttrTdlsAction,
            137 => Nl80211Attr::AttrTdlsDialogToken,
            138 => Nl80211Attr::AttrTdlsOperation,
            139 => Nl80211Attr::AttrTdlsSupport,
            140 => Nl80211Attr::AttrTdlsExternalSetup,
            141 => Nl80211Attr::AttrDeviceApSme,
            142 => Nl80211Attr::AttrDontWaitForAck,
            143 => Nl80211Attr::AttrFeatureFlags,
            144 => Nl80211Attr::AttrProbeRespOffload,
            145 => Nl80211Attr::AttrProbeResp,
            146 => Nl80211Attr::AttrDfsRegion,
            147 => Nl80211Attr::AttrDisableHt,
            148 => Nl80211Attr::AttrHtCapabilityMask,
            149 => Nl80211Attr::AttrNoackMap,
            150 => Nl80211Attr::AttrInactivityTimeout,
            151 => Nl80211Attr::AttrRxSignalDbm,
            152 => Nl80211Attr::AttrBgScanPeriod,
            153 => Nl80211Attr::AttrWdev,
            154 => Nl80211Attr::AttrUserRegHintType,
            155 => Nl80211Attr::AttrConnFailedReason,
            156 => Nl80211Attr::AttrSaeData,
            157 => Nl80211Attr::AttrVhtCapability,
            158 => Nl80211Attr::AttrScanFlags,
            159 => Nl80211Attr::AttrChannelWidth,
            160 => Nl80211Attr::AttrCenterFreq1,
            161 => Nl80211Attr::AttrCenterFreq2,
            162 => Nl80211Attr::AttrP2pCtwindow,
            163 => Nl80211Attr::AttrP2pOppps,
            164 => Nl80211Attr::AttrLocalMeshPowerMode,
            165 => Nl80211Attr::AttrAclPolicy,
            166 => Nl80211Attr::AttrMacAddrs,
            167 => Nl80211Attr::AttrMacAclMax,
            168 => Nl80211Attr::AttrRadarEvent,
            169 => Nl80211Attr::AttrExtCapa,
            170 => Nl80211Attr::AttrExtCapaMask,
            171 => Nl80211Attr::AttrStaCapability,
            172 => Nl80211Attr::AttrStaExtCapability,
            173 => Nl80211Attr::AttrProtocolFeatures,
            174 => Nl80211Attr::AttrSplitWiphyDump,
            175 => Nl80211Attr::AttrDisableVht,
            176 => Nl80211Attr::AttrVhtCapabilityMask,
            177 => Nl80211Attr::AttrMdid,
            178 => Nl80211Attr::AttrIeRic,
            179 => Nl80211Attr::AttrCritProtId,
            180 => Nl80211Attr::AttrMaxCritProtDuration,
            181 => Nl80211Attr::AttrPeerAid,
            182 => Nl80211Attr::AttrCoalesceRule,
            183 => Nl80211Attr::AttrChSwitchCount,
            184 => Nl80211Attr::AttrChSwitchBlockTx,
            185 => Nl80211Attr::AttrCsaIes,
            186 => Nl80211Attr::AttrCsaCOffBeacon,
            187 => Nl80211Attr::AttrCsaCOffPresp,
            188 => Nl80211Attr::AttrRxmgmtFlags,
            189 => Nl80211Attr::AttrStaSupportedChannels,
            190 => Nl80211Attr::AttrStaSupportedOperClasses,
            191 => Nl80211Attr::AttrHandleDfs,
            192 => Nl80211Attr::AttrSupport5Mhz,
            193 => Nl80211Attr::AttrSupport10Mhz,
            194 => Nl80211Attr::AttrOpmodeNotif,
            195 => Nl80211Attr::AttrVendorId,
            196 => Nl80211Attr::AttrVendorSubcmd,
            197 => Nl80211Attr::AttrVendorData,
            198 => Nl80211Attr::AttrVendorEvents,
            199 => Nl80211Attr::AttrQosMap,
            200 => Nl80211Attr::AttrMacHint,
            201 => Nl80211Attr::AttrWiphyFreqHint,
            202 => Nl80211Attr::AttrMaxApAssocSta,
            203 => Nl80211Attr::AttrTdlsPeerCapability,
            204 => Nl80211Attr::AttrSocketOwner,
            205 => Nl80211Attr::AttrCsaCOffsetsTx,
            206 => Nl80211Attr::AttrMaxCsaCounters,
            207 => Nl80211Attr::AttrTdlsInitiator,
            208 => Nl80211Attr::AttrUseRrm,
            209 => Nl80211Attr::AttrWiphyDynAck,
            210 => Nl80211Attr::AttrTsid,
            211 => Nl80211Attr::AttrUserPrio,
            212 => Nl80211Attr::AttrAdmittedTime,
            213 => Nl80211Attr::AttrSmpsMode,
            214 => Nl80211Attr::AttrOperClass,
            215 => Nl80211Attr::AttrMacMask,
            216 => Nl80211Attr::AttrWiphySelfManagedReg,
            217 => Nl80211Attr::AttrExtFeatures,
            218 => Nl80211Attr::AttrSurveyRadioStats,
            219 => Nl80211Attr::AttrNetnsFd,
            220 => Nl80211Attr::AttrSchedScanDelay,
            221 => Nl80211Attr::AttrRegIndoor,
            222 => Nl80211Attr::AttrMaxNumSchedScanPlans,
            223 => Nl80211Attr::AttrMaxScanPlanInterval,
            224 => Nl80211Attr::AttrMaxScanPlanIterations,
            225 => Nl80211Attr::AttrSchedScanPlans,
            226 => Nl80211Attr::AttrPbss,
            227 => Nl80211Attr::AttrBssSelect,
            228 => Nl80211Attr::AttrStaSupportP2pPs,
            229 => Nl80211Attr::AttrPad,
            230 => Nl80211Attr::AttrIftypeExtCapa,
            231 => Nl80211Attr::AttrMuMimoGroupData,
            232 => Nl80211Attr::AttrMuMimoFollowMacAddr,
            233 => Nl80211Attr::AttrScanStartTimeTsf,
            234 => Nl80211Attr::AttrScanStartTimeTsfBssid,
            235 => Nl80211Attr::AttrMeasurementDuration,
            236 => Nl80211Attr::AttrMeasurementDurationMandatory,
            237 => Nl80211Attr::AttrMeshPeerAid,
            238 => Nl80211Attr::AttrNanMasterPref,
            239 => Nl80211Attr::AttrNanDual,
            240 => Nl80211Attr::AttrNanFunc,
            241 => Nl80211Attr::AttrNanMatch,
            _ => Nl80211Attr::UnrecognizedVariant(v),
        }
    }

    /// The wire value of a symbol.
    pub open spec fn spec_to_u16(self) -> u16 {
        match self {
            Nl80211Attr::AttrUnspec => 0,
            Nl80211Attr::AttrWiphy => 1,
            Nl80211Attr::AttrWiphyName => 2,
            Nl80211Attr::AttrIfindex => 3,
            Nl80211Attr::AttrIfname => 4,
            Nl80211Attr::AttrIftype => 5,
            Nl80211Attr::AttrMac => 6,
            Nl80211Attr::AttrKeyData => 7,
            Nl80211Attr::AttrKeyIdx => 8,
            Nl80211Attr::AttrKeyCipher => 9,
            Nl80211Attr::AttrKeySeq => 10,
            Nl80211Attr::AttrKeyDefault => 11,
            Nl80211Attr::AttrBeaconInterval => 12,
            Nl80211Attr::AttrDtimPeriod => 13,
            Nl80211Attr::AttrBeaconHead => 14,
            Nl80211Attr::AttrBeaconTail => 15,
            Nl80211Attr::AttrStaAid => 16,
            Nl80211Attr::AttrStaFlags => 17,
            Nl80211Attr::AttrStaListenInterval => 18,
            Nl80211Attr::AttrStaSupportedRates => 19,
            Nl80211Attr::AttrStaVlan => 20,
            Nl80211Attr::AttrStaInfo => 21,
            Nl80211Attr::AttrWiphyBands => 22,
            Nl80211Attr::AttrMntrFlags => 23,
            Nl80211Attr::AttrMeshId => 24,
            Nl80211Attr::AttrStaPlinkAction => 25,
            Nl80211Attr::AttrMpathNextHop => 26,
            Nl80211Attr::AttrMpathInfo => 27,
            Nl80211Attr::AttrBssCtsProt => 28,
            Nl80211Attr::AttrBssShortPreamble => 29,
            Nl80211Attr::AttrBssShortSlotTime => 30,
            Nl80211Attr::AttrHtCapability => 31,
            Nl80211Attr::AttrSupportedIftypes => 32,
            Nl80211Attr::AttrRegAlpha2 => 33,
            Nl80211Attr::AttrRegRules => 34,
            Nl80211Attr::AttrMeshConfig => 35,
            Nl80211Attr::AttrBssBasicRates => 36,
            Nl80211Attr::AttrWiphyTxqParams => 37,
            Nl80211Attr::AttrWiphyFreq => 38,
            Nl80211Attr::AttrWiphyChannelType => 39,
            Nl80211Attr::AttrKeyDefaultMgmt => 40,
            Nl80211Attr::AttrMgmtSubtype => 41,
            Nl80211Attr::AttrIe => 42,
            Nl80211Attr::AttrMaxNumScanSsids => 43,
            Nl80211Attr::AttrScanFrequencies => 44,
            Nl80211Attr::AttrScanSsids => 45,
            Nl80211Attr::AttrGeneration => 46,
            Nl80211Attr::AttrBss => 47,
            Nl80211Attr::AttrRegInitiator => 48,
            Nl80211Attr::AttrRegType => 49,
            Nl80211Attr::AttrSupportedCommands => 50,
            Nl80211Attr::AttrFrame => 51,
            Nl80211Attr::AttrSsid => 52,
            Nl80211Attr::AttrAuthType => 53,
            Nl80211Attr::AttrReasonCode => 54,
            Nl80211Attr::AttrKeyType => 55,
            Nl80211Attr::AttrMaxScanIeLen => 56,
            Nl80211Attr::AttrCipherSuites => 57,
            Nl80211Attr::AttrFreqBefore => 58,
            Nl80211Attr::AttrFreqAfter => 59,
            Nl80211Attr::AttrFreqFixed => 60,
            Nl80211Attr::AttrWiphyRetryShort => 61,
            Nl80211Attr::AttrWiphyRetryLong => 62,
            Nl80211Attr::AttrWiphyFragThreshold => 63,
            Nl80211Attr::AttrWiphyRtsThreshold => 64,
            Nl80211Attr::AttrTimedOut => 65,
            Nl80211Attr::AttrUseMfp => 66,
            Nl80211Attr::AttrStaFlags2 => 67,
            Nl80211Attr::AttrControlPort => 68,
            Nl80211Attr::AttrTestdata => 69,
            Nl80211Attr::AttrPrivacy => 70,
            Nl80211Attr::AttrDisconnectedByAp => 71,
            Nl80211Attr::AttrStatusCode => 72,
            Nl80211Attr::AttrCipherSuitesPairwise => 73,
            Nl80211Attr::AttrCipherSuiteGroup => 74,
            Nl80211Attr::AttrWpaVersions => 75,
            Nl80211Attr::AttrAkmSuites => 76,
            Nl80211Attr::AttrReqIe => 77,
            Nl80211Attr::AttrRespIe => 78,
            Nl80211Attr::AttrPrevBssid => 79,
            Nl80211Attr::AttrKey => 80,
            Nl80211Attr::AttrKeys => 81,
            Nl80211Attr::AttrPid => 82,
            Nl80211Attr::Attr4addr => 83,
            Nl80211Attr::AttrSurveyInfo => 84,
            Nl80211Attr::AttrPmkid => 85,
            Nl80211Attr::AttrMaxNumPmkids => 86,
            Nl80211Attr::AttrDuration => 87,
            Nl80211Attr::AttrCookie => 88,
            Nl80211Attr::AttrWiphyCoverageClass => 89,
            Nl80211Attr::AttrTxRates => 90,
            Nl80211Attr::AttrFrameMatch => 91,
            Nl80211Attr::AttrAck => 92,
            Nl80211Attr::AttrPsState => 93,
            Nl80211Attr::AttrCqm => 94,
            Nl80211Attr::AttrLocalStateChange => 95,
            Nl80211Attr::AttrApIsolate => 96,
            Nl80211Attr::AttrWiphyTxPowerSetting => 97,
            Nl80211Attr::AttrWiphyTxPowerLevel => 98,
            Nl80211Attr::AttrTxFrameTypes => 99,
            Nl80211Attr::AttrRxFrameTypes => 100,
            Nl80211Attr::AttrFrameType => 101,
            Nl80211Attr::AttrControlPortEthertype => 102,
            Nl80211Attr::AttrControlPortNoEncrypt => 103,
            Nl80211Attr::AttrSupportIbssRsn => 104,
            Nl80211Attr::AttrWiphyAntennaTx => 105,
            Nl80211Attr::AttrWiphyAntennaRx => 106,
            Nl80211Attr::AttrMcastRate => 107,
            Nl80211Attr::AttrOffchannelTxOk => 108,
            Nl80211Attr::AttrBssHtOpmode => 109,
            Nl80211Attr::AttrKeyDefaultTypes => 110,
            Nl80211Attr::AttrMaxRemainOnChannelDuration => 111,
            Nl80211Attr::AttrMeshSetup => 112,
            Nl80211Attr::AttrWiphyAntennaAvailTx => 113,
            Nl80211Attr::AttrWiphyAntennaAvailRx => 114,
            Nl80211Attr::AttrSupportMeshAuth => 115,
            Nl80211Attr::AttrStaPlinkState => 116,
            Nl80211Attr::AttrWowlanTriggers => 117,
            Nl80211Attr::AttrWowlanTriggersSupported => 118,
            Nl80211Attr::AttrSchedScanInterval => 119,
            Nl80211Attr::AttrInterfaceCombinations => 120,
            Nl80211Attr::AttrSoftwareIftypes => 121,
            Nl80211Attr::AttrRekeyData => 122,
            Nl80211Attr::AttrMaxNumSchedScanSsids => 123,
            Nl80211Attr::AttrMaxSchedScanIeLen => 124,
            Nl80211Attr::AttrScanSuppRates => 125,
            Nl80211Attr::AttrHiddenSsid => 126,
            Nl80211Attr::AttrIeProbeResp => 127,
            Nl80211Attr::AttrIeAssocResp => 128,
            Nl80211Attr::AttrStaWme => 129,
            Nl80211Attr::AttrSupportApUapsd => 130,
            Nl80211Attr::AttrRoamSupport => 131,
            Nl80211Attr::AttrSchedScanMatch => 132,
            Nl80211Attr::AttrMaxMatchSets => 133,
            Nl80211Attr::AttrPmksaCandidate => 134,
            Nl80211Attr::AttrTxNoCckRate => 135,
            Nl80211Attr::AttrTdlsAction => 136,
            Nl80211Attr::AttrTdlsDialogToken => 137,
            Nl80211Attr::AttrTdlsOperation => 138,
            Nl80211Attr::AttrTdlsSupport => 139,
            Nl80211Attr::AttrTdlsExternalSetup => 140,
            Nl80211Attr::AttrDeviceApSme => 141,
            Nl80211Attr::AttrDontWaitForAck => 142,
            Nl80211Attr::AttrFeatureFlags => 143,
            Nl80211Attr::AttrProbeRespOffload => 144,
            Nl80211Attr::AttrProbeResp => 145,
            Nl80211Attr::AttrDfsRegion => 146,
            Nl80211Attr::AttrDisableHt => 147,
            Nl80211Attr::AttrHtCapabilityMask => 148,
            Nl80211Attr::AttrNoackMap => 149,
            Nl80211Attr::AttrInactivityTimeout => 150,
            Nl80211Attr::AttrRxSignalDbm => 151,
            Nl80211Attr::AttrBgScanPeriod => 152,
            Nl80211Attr::AttrWdev => 153,
            Nl80211Attr::AttrUserRegHintType => 154,
            Nl80211Attr::AttrConnFailedReason => 155,
            Nl80211Attr::AttrSaeData => 156,
            Nl80211Attr::AttrVhtCapability => 157,
            Nl80211Attr::AttrScanFlags => 158,
            Nl80211Attr::AttrChannelWidth => 159,
            Nl80211Attr::AttrCenterFreq1 => 160,
            Nl80211Attr::AttrCenterFreq2 => 161,
            Nl80211Attr::AttrP2pCtwindow => 162,
            Nl80211Attr::AttrP2pOppps => 163,
            Nl80211Attr::AttrLocalMeshPowerMode => 164,
            Nl80211Attr::AttrAclPolicy => 165,
            Nl80211Attr::AttrMacAddrs => 166,
            Nl80211Attr::AttrMacAclMax => 167,
            Nl80211Attr::AttrRadarEvent => 168,
            Nl80211Attr::AttrExtCapa => 169,
            Nl80211Attr::AttrExtCapaMask => 170,
            Nl80211Attr::AttrStaCapability => 171,
            Nl80211Attr::AttrStaExtCapability => 172,
            Nl80211Attr::AttrProtocolFeatures => 173,
            Nl80211Attr::AttrSplitWiphyDump => 174,
            Nl80211Attr::AttrDisableVht => 175,
            Nl80211Attr::AttrVhtCapabilityMask => 176,
            Nl80211Attr::AttrMdid => 177,
            Nl80211Attr::AttrIeRic => 178,
            Nl80211Attr::AttrCritProtId => 179,
            Nl80211Attr::AttrMaxCritProtDuration => 180,
            Nl80211Attr::AttrPeerAid => 181,
            Nl80211Attr::AttrCoalesceRule => 182,
            Nl80211Attr::AttrChSwitchCount => 183,
            Nl80211Attr::AttrChSwitchBlockTx => 184,
            Nl80211Attr::AttrCsaIes => 185,
            Nl80211Attr::AttrCsaCOffBeacon => 186,
            Nl80211Attr::AttrCsaCOffPresp => 187,
            Nl80211Attr::AttrRxmgmtFlags => 188,
            Nl80211Attr::AttrStaSupportedChannels => 189,
            Nl80211Attr::AttrStaSupportedOperClasses => 190,
            Nl80211Attr::AttrHandleDfs => 191,
            Nl80211Attr::AttrSupport5Mhz => 192,
            Nl80211Attr::AttrSupport10Mhz => 193,
            Nl80211Attr::AttrOpmodeNotif => 194,
            Nl80211Attr::AttrVendorId => 195,
            Nl80211Attr::AttrVendorSubcmd => 196,
            Nl80211Attr::AttrVendorData => 197,
            Nl80211Attr::AttrVendorEvents => 198,
            Nl80211Attr::AttrQosMap => 199,
            Nl80211Attr::AttrMacHint => 200,
            Nl80211Attr::AttrWiphyFreqHint => 201,
            Nl80211Attr::AttrMaxApAssocSta => 202,
            Nl80211Attr::AttrTdlsPeerCapability => 203,
            Nl80211Attr::AttrSocketOwner => 204,
            Nl80211Attr::AttrCsaCOffsetsTx => 205,
            Nl80211Attr::AttrMaxCsaCounters => 206,
            Nl80211Attr::AttrTdlsInitiator => 207,
            Nl80211Attr::AttrUseRrm => 208,
            Nl80211Attr::AttrWiphyDynAck => 209,
            Nl80211Attr::AttrTsid => 210,
            Nl80211Attr::AttrUserPrio => 211,
            Nl80211Attr::AttrAdmittedTime => 212,
            Nl80211Attr::AttrSmpsMode => 213,
            Nl80211Attr::AttrOperClass => 214,
            Nl80211Attr::AttrMacMask => 215,
            Nl80211Attr::AttrWiphySelfManagedReg => 216,
            Nl80211Attr::AttrExtFeatures => 217,
            Nl80211Attr::AttrSurveyRadioStats => 218,
            Nl80211Attr::AttrNetnsFd => 219,
            Nl80211Attr::AttrSchedScanDelay => 220,
            Nl80211Attr::AttrRegIndoor => 221,
            Nl80211Attr::AttrMaxNumSchedScanPlans => 222,
            Nl80211Attr::AttrMaxScanPlanInterval => 223,
            Nl80211Attr::AttrMaxScanPlanIterations => 224,
            Nl80211Attr::AttrSchedScanPlans => 225,
            Nl80211Attr::AttrPbss => 226,
            Nl80211Attr::AttrBssSelect => 227,
            Nl80211Attr::AttrStaSupportP2pPs => 228,
            Nl80211Attr::AttrPad => 229,
            Nl80211Attr::AttrIftypeExtCapa => 230,
            Nl80211Attr::AttrMuMimoGroupData => 231,
            Nl80211Attr::AttrMuMimoFollowMacAddr => 232,
            Nl80211Attr::AttrScanStartTimeTsf => 233,
            Nl80211Attr::AttrScanStartTimeTsfBssid => 234,
            Nl80211Attr::AttrMeasurementDuration => 235,
            Nl80211Attr::AttrMeasurementDurationMandatory => 236,
            Nl80211Attr::AttrMeshPeerAid => 237,
            Nl80211Attr::AttrNanMasterPref => 238,
            Nl80211Attr::AttrNanDual => 239,
            Nl80211Attr::AttrNanFunc => 240,
            Nl80211Attr::AttrNanMatch => 241,
            Nl80211Attr::UnrecognizedVariant(v) => v,
        }
    }

    /// The symbol of a wire value; never fails.
    pub fn from_u16(v: u16) -> (r: Nl80211Attr)
        ensures
            r == Self::spec_from_u16(v),
    {
        match v {
            0 => Nl80211Attr::AttrUnspec,
            1 => Nl80211Attr::AttrWiphy,
            2 => Nl80211Attr::AttrWiphyName,
            3 => Nl80211Attr::AttrIfindex,
            4 => Nl80211Attr::AttrIfname,
            5 => Nl80211Attr::AttrIftype,
            6 => Nl80211Attr::AttrMac,
            7 => Nl80211Attr::AttrKeyData,
            8 => Nl80211Attr::AttrKeyIdx,
            9 => Nl80211Attr::AttrKeyCipher,
            10 => Nl80211Attr::AttrKeySeq,
            11 => Nl80211Attr::AttrKeyDefault,
            12 => Nl80211Attr::AttrBeaconInterval,
            13 => Nl80211Attr::AttrDtimPeriod,
            14 => Nl80211Attr::AttrBeaconHead,
            15 => Nl80211Attr::AttrBeaconTail,
            16 => Nl80211Attr::AttrStaAid,
            17 => Nl80211Attr::AttrStaFlags,
            18 => Nl80211Attr::AttrStaListenInterval,
            19 => Nl80211Attr::AttrStaSupportedRates,
            20 => Nl80211Attr::AttrStaVlan,
            21 => Nl80211Attr::AttrStaInfo,
            22 => Nl80211Attr::AttrWiphyBands,
            23 => Nl80211Attr::AttrMntrFlags,
            24 => Nl80211Attr::AttrMeshId,
            25 => Nl80211Attr::AttrStaPlinkAction,
            26 => Nl80211Attr::AttrMpathNextHop,
            27 => Nl80211Attr::AttrMpathInfo,
            28 => Nl80211Attr::AttrBssCtsProt,
            29 => Nl80211Attr::AttrBssShortPreamble,
            30 => Nl80211Attr::AttrBssShortSlotTime,
            31 => Nl80211Attr::AttrHtCapability,
            32 => Nl80211Attr::AttrSupportedIftypes,
            33 => Nl80211Attr::AttrRegAlpha2,
            34 => Nl80211Attr::AttrRegRules,
            35 => Nl80211Attr::AttrMeshConfig,
            36 => Nl80211Attr::AttrBssBasicRates,
            37 => Nl80211Attr::AttrWiphyTxqParams,
            38 => Nl80211Attr::AttrWiphyFreq,
            39 => Nl80211Attr::AttrWiphyChannelType,
            40 => Nl80211Attr::AttrKeyDefaultMgmt,
            41 => Nl80211Attr::AttrMgmtSubtype,
            42 => Nl80211Attr::AttrIe,
            43 => Nl80211Attr::AttrMaxNumScanSsids,
            44 => Nl80211Attr::AttrScanFrequencies,
            45 => Nl80211Attr::AttrScanSsids,
            46 => Nl80211Attr::AttrGeneration,
            47 => Nl80211Attr::AttrBss,
            48 => Nl80211Attr::AttrRegInitiator,
            49 => Nl80211Attr::AttrRegType,
            50 => Nl80211Attr::AttrSupportedCommands,
            51 => Nl80211Attr::AttrFrame,
            52 => Nl80211Attr::AttrSsid,
            53 => Nl80211Attr::AttrAuthType,
            54 => Nl80211Attr::AttrReasonCode,
            55 => Nl80211Attr::AttrKeyType,
            56 => Nl80211Attr::AttrMaxScanIeLen,
            57 => Nl80211Attr::AttrCipherSuites,
            58 => Nl80211Attr::AttrFreqBefore,
            59 => Nl80211Attr::AttrFreqAfter,
            60 => Nl80211Attr::AttrFreqFixed,
            61 => Nl80211Attr::AttrWiphyRetryShort,
            62 => Nl80211Attr::AttrWiphyRetryLong,
            63 => Nl80211Attr::AttrWiphyFragThreshold,
            64 => Nl80211Attr::AttrWiphyRtsThreshold,
            65 => Nl80211Attr::AttrTimedOut,
            66 => Nl80211Attr::AttrUseMfp,
            67 => Nl80211Attr::AttrStaFlags2,
            68 => Nl80211Attr::AttrControlPort,
            69 => Nl80211Attr::AttrTestdata,
            70 => Nl80211Attr::AttrPrivacy,
            71 => Nl80211Attr::AttrDisconnectedByAp,
            72 => Nl80211Attr::AttrStatusCode,
            73 => Nl80211Attr::AttrCipherSuitesPairwise,
            74 => Nl80211Attr::AttrCipherSuiteGroup,
            75 => Nl80211Attr::AttrWpaVersions,
            76 => Nl80211Attr::AttrAkmSuites,
            77 => Nl80211Attr::AttrReqIe,
            78 => Nl80211Attr::AttrRespIe,
            79 => Nl80211Attr::AttrPrevBssid,
            80 => Nl80211Attr::AttrKey,
            81 => Nl80211Attr::AttrKeys,
            82 => Nl80211Attr::AttrPid,
            83 => Nl80211Attr::Attr4addr,
            84 => Nl80211Attr::AttrSurveyInfo,
            85 => Nl80211Attr::AttrPmkid,
            86 => Nl80211Attr::AttrMaxNumPmkids,
            87 => Nl80211Attr::AttrDuration,
            88 => Nl80211Attr::AttrCookie,
            89 => Nl80211Attr::AttrWiphyCoverageClass,
            90 => Nl80211Attr::AttrTxRates,
            91 => Nl80211Attr::AttrFrameMatch,
            92 => Nl80211Attr::AttrAck,
            93 => Nl80211Attr::AttrPsState,
            94 => Nl80211Attr::AttrCqm,
            95 => Nl80211Attr::AttrLocalStateChange,
            96 => Nl80211Attr::AttrApIsolate,
            97 => Nl80211Attr::AttrWiphyTxPowerSetting,
            98 => Nl80211Attr::AttrWiphyTxPowerLevel,
            99 => Nl80211Attr::AttrTxFrameTypes,
            100 => Nl80211Attr::AttrRxFrameTypes,
            101 => Nl80211Attr::AttrFrameType,
            102 => Nl80211Attr::AttrControlPortEthertype,
            103 => Nl80211Attr::AttrControlPortNoEncrypt,
            104 => Nl80211Attr::AttrSupportIbssRsn,
            105 => Nl80211Attr::AttrWiphyAntennaTx,
            106 => Nl80211Attr::AttrWiphyAntennaRx,
            107 => Nl80211Attr::AttrMcastRate,
            108 => Nl80211Attr::AttrOffchannelTxOk,
            109 => Nl80211Attr::AttrBssHtOpmode,
            110 => Nl80211Attr::AttrKeyDefaultTypes,
            111 => Nl80211Attr::AttrMaxRemainOnChannelDuration,
            112 => Nl80211Attr::AttrMeshSetup,
            113 => Nl80211Attr::AttrWiphyAntennaAvailTx,
            114 => Nl80211Attr::AttrWiphyAntennaAvailRx,
            115 => Nl80211Attr::AttrSupportMeshAuth,
            116 => Nl80211Attr::AttrStaPlinkState,
            117 => Nl80211Attr::AttrWowlanTriggers,
            118 => Nl80211Attr::AttrWowlanTriggersSupported,
            119 => Nl80211Attr::AttrSchedScanInterval,
            120 => Nl80211Attr::AttrInterfaceCombinations,
            121 => Nl80211Attr::AttrSoftwareIftypes,
            122 => Nl80211Attr::AttrRekeyData,
            123 => Nl80211Attr::AttrMaxNumSchedScanSsids,
            124 => Nl80211Attr::AttrMaxSchedScanIeLen,
            125 => Nl80211Attr::AttrScanSuppRates,
            126 => Nl80211Attr::AttrHiddenSsid,
            127 => Nl80211Attr::AttrIeProbeResp,
            128 => Nl80211Attr::AttrIeAssocResp,
            129 => Nl80211Attr::AttrStaWme,
            130 => Nl80211Attr::AttrSupportApUapsd,
            131 => Nl80211Attr::AttrRoamSupport,
            132 => Nl80211Attr::AttrSchedScanMatch,
            133 => Nl80211Attr::AttrMaxMatchSets,
            134 => Nl80211Attr::AttrPmksaCandidate,
            135 => Nl80211Attr::AttrTxNoCckRate,
            136 => Nl80211Attr::AttrTdlsAction,
            137 => Nl80211Attr::AttrTdlsDialogToken,
            138 => Nl80211Attr::AttrTdlsOperation,
            139 => Nl80211Attr::AttrTdlsSupport,
            140 => Nl80211Attr::AttrTdlsExternalSetup,
            141 => Nl80211Attr::AttrDeviceApSme,
            142 => Nl80211Attr::AttrDontWaitForAck,
            143 => Nl80211Attr::AttrFeatureFlags,
            144 => Nl80211Attr::AttrProbeRespOffload,
            145 => Nl80211Attr::AttrProbeResp,
            146 => Nl80211Attr::AttrDfsRegion,
            147 => Nl80211Attr::AttrDisableHt,
            148 => Nl80211Attr::AttrHtCapabilityMask,
            149 => Nl80211Attr::AttrNoackMap,
            150 => Nl80211Attr::AttrInactivityTimeout,
            151 => Nl80211Attr::AttrRxSignalDbm,
            152 => Nl80211Attr::AttrBgScanPeriod,
            153 => Nl80211Attr::AttrWdev,
            154 => Nl80211Attr::AttrUserRegHintType,
            155 => Nl80211Attr::AttrConnFailedReason,
            156 => Nl80211Attr::AttrSaeData,
            157 => Nl80211Attr::AttrVhtCapability,
            158 => Nl80211Attr::AttrScanFlags,
            159 => Nl80211Attr::AttrChannelWidth,
            160 => Nl80211Attr::AttrCenterFreq1,
            161 => Nl80211Attr::AttrCenterFreq2,
            162 => Nl80211Attr::AttrP2pCtwindow,
            163 => Nl80211Attr::AttrP2pOppps,
            164 => Nl80211Attr::AttrLocalMeshPowerMode,
            165 => Nl80211Attr::AttrAclPolicy,
            166 => Nl80211Attr::AttrMacAddrs,
            167 => Nl80211Attr::AttrMacAclMax,
            168 => Nl80211Attr::AttrRadarEvent,
            169 => Nl80211Attr::AttrExtCapa,
            170 => Nl80211Attr::AttrExtCapaMask,
            171 => Nl80211Attr::AttrStaCapability,
            172 => Nl80211Attr::AttrStaExtCapability,
            173 => Nl80211Attr::AttrProtocolFeatures,
            174 => Nl80211Attr::AttrSplitWiphyDump,
            175 => Nl80211Attr::AttrDisableVht,
            176 => Nl80211Attr::AttrVhtCapabilityMask,
            177 => Nl80211Attr::AttrMdid,
            178 => Nl80211Attr::AttrIeRic,
            179 => Nl80211Attr::AttrCritProtId,
            180 => Nl80211Attr::AttrMaxCritProtDuration,
            181 => Nl80211Attr::AttrPeerAid,
            182 => Nl80211Attr::AttrCoalesceRule,
            183 => Nl80211Attr::AttrChSwitchCount,
            184 => Nl80211Attr::AttrChSwitchBlockTx,
            185 => Nl80211Attr::AttrCsaIes,
            186 => Nl80211Attr::AttrCsaCOffBeacon,
            187 => Nl80211Attr::AttrCsaCOffPresp,
            188 => Nl80211Attr::AttrRxmgmtFlags,
            189 => Nl80211Attr::AttrStaSupportedChannels,
            190 => Nl80211Attr::AttrStaSupportedOperClasses,
            191 => Nl80211Attr::AttrHandleDfs,
            192 => Nl80211Attr::AttrSupport5Mhz,
            193 => Nl80211Attr::AttrSupport10Mhz,
            194 => Nl80211Attr::AttrOpmodeNotif,
            195 => Nl80211Attr::AttrVendorId,
            196 => Nl80211Attr::AttrVendorSubcmd,
            197 => Nl80211Attr::AttrVendorData,
            198 => Nl80211Attr::AttrVendorEvents,
            199 => Nl80211Attr::AttrQosMap,
            200 => Nl80211Attr::AttrMacHint,
            201 => Nl80211Attr::AttrWiphyFreqHint,
            202 => Nl80211Attr::AttrMaxApAssocSta,
            203 => Nl80211Attr::AttrTdlsPeerCapability,
            204 => Nl80211Attr::AttrSocketOwner,
            205 => Nl80211Attr::AttrCsaCOffsetsTx,
            206 => Nl80211Attr::AttrMaxCsaCounters,
            207 => Nl80211Attr::AttrTdlsInitiator,
            208 => Nl80211Attr::AttrUseRrm,
            209 => Nl80211Attr::AttrWiphyDynAck,
            210 => Nl80211Attr::AttrTsid,
            211 => Nl80211Attr::AttrUserPrio,
            212 => Nl80211Attr::AttrAdmittedTime,
            213 => Nl80211Attr::AttrSmpsMode,
            214 => Nl80211Attr::AttrOperClass,
            215 => Nl80211Attr::AttrMacMask,
            216 => Nl80211Attr::AttrWiphySelfManagedReg,
            217 => Nl80211Attr::AttrExtFeatures,
            218 => Nl80211Attr::AttrSurveyRadioStats,
            219 => Nl80211Attr::AttrNetnsFd,
            220 => Nl80211Attr::AttrSchedScanDelay,
            221 => Nl80211Attr::AttrRegIndoor,
            222 => Nl80211Attr::AttrMaxNumSchedScanPlans,
            223 => Nl80211Attr::AttrMaxScanPlanInterval,
            224 => Nl80211Attr::AttrMaxScanPlanIterations,
            225 => Nl80211Attr::AttrSchedScanPlans,
            226 => Nl80211Attr::AttrPbss,
            227 => Nl80211Attr::AttrBssSelect,
            228 => Nl80211Attr::AttrStaSupportP2pPs,
            229 => Nl80211Attr::AttrPad,
            230 => Nl80211Attr::AttrIftypeExtCapa,
            231 => Nl80211Attr::AttrMuMimoGroupData,
            232 => Nl80211Attr::AttrMuMimoFollowMacAddr,
            233 => Nl80211Attr::AttrScanStartTimeTsf,
            234 => Nl80211Attr::AttrScanStartTimeTsfBssid,
            235 => Nl80211Attr::AttrMeasurementDuration,
            236 => Nl80211Attr::AttrMeasurementDurationMandatory,
            237 => Nl80211Attr::AttrMeshPeerAid,
            238 => Nl80211Attr::AttrNanMasterPref,
            239 => Nl80211Attr::AttrNanDual,
            240 => Nl80211Attr::AttrNanFunc,
            241 => Nl80211Attr::AttrNanMatch,
            _ => Nl80211Attr::UnrecognizedVariant(v),
        }
    }

    /// The wire value of this symbol.
    pub fn to_u16(&self) -> (r: u16)
        ensures
            r == self.spec_to_u16(),
    {
        match self {
            Nl80211Attr::AttrUnspec => 0,
            Nl80211Attr::AttrWiphy => 1,
            Nl80211Attr::AttrWiphyName => 2,
            Nl80211Attr::AttrIfindex => 3,
            Nl80211Attr::AttrIfname => 4,
            Nl80211Attr::AttrIftype => 5,
            Nl80211Attr::AttrMac => 6,
            Nl80211Attr::AttrKeyData => 7,
            Nl80211Attr::AttrKeyIdx => 8,
            Nl80211Attr::AttrKeyCipher => 9,
            Nl80211Attr::AttrKeySeq => 10,
            Nl80211Attr::AttrKeyDefault => 11,
            Nl80211Attr::AttrBeaconInterval => 12,
            Nl80211Attr::AttrDtimPeriod => 13,
            Nl80211Attr::AttrBeaconHead => 14,
            Nl80211Attr::AttrBeaconTail => 15,
            Nl80211Attr::AttrStaAid => 16,
            Nl80211Attr::AttrStaFlags => 17,
            Nl80211Attr::AttrStaListenInterval => 18,
            Nl80211Attr::AttrStaSupportedRates => 19,
            Nl80211Attr::AttrStaVlan => 20,
            Nl80211Attr::AttrStaInfo => 21,
            Nl80211Attr::AttrWiphyBands => 22,
            Nl80211Attr::AttrMntrFlags => 23,
            Nl80211Attr::AttrMeshId => 24,
            Nl80211Attr::AttrStaPlinkAction => 25,
            Nl80211Attr::AttrMpathNextHop => 26,
            Nl80211Attr::AttrMpathInfo => 27,
            Nl80211Attr::AttrBssCtsProt => 28,
            Nl80211Attr::AttrBssShortPreamble => 29,
            Nl80211Attr::AttrBssShortSlotTime => 30,
            Nl80211Attr::AttrHtCapability => 31,
            Nl80211Attr::AttrSupportedIftypes => 32,
            Nl80211Attr::AttrRegAlpha2 => 33,
            Nl80211Attr::AttrRegRules => 34,
            Nl80211Attr::AttrMeshConfig => 35,
            Nl80211Attr::AttrBssBasicRates => 36,
            Nl80211Attr::AttrWiphyTxqParams => 37,
            Nl80211Attr::AttrWiphyFreq => 38,
            Nl80211Attr::AttrWiphyChannelType => 39,
            Nl80211Attr::AttrKeyDefaultMgmt => 40,
            Nl80211Attr::AttrMgmtSubtype => 41,
            Nl80211Attr::AttrIe => 42,
            Nl80211Attr::AttrMaxNumScanSsids => 43,
            Nl80211Attr::AttrScanFrequencies => 44,
            Nl80211Attr::AttrScanSsids => 45,
            Nl80211Attr::AttrGeneration => 46,
            Nl80211Attr::AttrBss => 47,
            Nl80211Attr::AttrRegInitiator => 48,
            Nl80211Attr::AttrRegType => 49,
            Nl80211Attr::AttrSupportedCommands => 50,
            Nl80211Attr::AttrFrame => 51,
            Nl80211Attr::AttrSsid => 52,
            Nl80211Attr::AttrAuthType => 53,
            Nl80211Attr::AttrReasonCode => 54,
            Nl80211Attr::AttrKeyType => 55,
            Nl80211Attr::AttrMaxScanIeLen => 56,
            Nl80211Attr::AttrCipherSuites => 57,
            Nl80211Attr::AttrFreqBefore => 58,
            Nl80211Attr::AttrFreqAfter => 59,
            Nl80211Attr::AttrFreqFixed => 60,
            Nl80211Attr::AttrWiphyRetryShort => 61,
            Nl80211Attr::AttrWiphyRetryLong => 62,
            Nl80211Attr::AttrWiphyFragThreshold => 63,
            Nl80211Attr::AttrWiphyRtsThreshold => 64,
            Nl80211Attr::AttrTimedOut => 65,
            Nl80211Attr::AttrUseMfp => 66,
            Nl80211Attr::AttrStaFlags2 => 67,
            Nl80211Attr::AttrControlPort => 68,
            Nl80211Attr::AttrTestdata => 69,
            Nl80211Attr::AttrPrivacy => 70,
            Nl80211Attr::AttrDisconnectedByAp => 71,
            Nl80211Attr::AttrStatusCode => 72,
            Nl80211Attr::AttrCipherSuitesPairwise => 73,
            Nl80211Attr::AttrCipherSuiteGroup => 74,
            Nl80211Attr::AttrWpaVersions => 75,
            Nl80211Attr::AttrAkmSuites => 76,
            Nl80211Attr::AttrReqIe => 77,
            Nl80211Attr::AttrRespIe => 78,
            Nl80211Attr::AttrPrevBssid => 79,
            Nl80211Attr::AttrKey => 80,
            Nl80211Attr::AttrKeys => 81,
            Nl80211Attr::AttrPid => 82,
            Nl80211Attr::Attr4addr => 83,
            Nl80211Attr::AttrSurveyInfo => 84,
            Nl80211Attr::AttrPmkid => 85,
            Nl80211Attr::AttrMaxNumPmkids => 86,
            Nl80211Attr::AttrDuration => 87,
            Nl80211Attr::AttrCookie => 88,
            Nl80211Attr::AttrWiphyCoverageClass => 89,
            Nl80211Attr::AttrTxRates => 90,
            Nl80211Attr::AttrFrameMatch => 91,
            Nl80211Attr::AttrAck => 92,
            Nl80211Attr::AttrPsState => 93,
            Nl80211Attr::AttrCqm => 94,
            Nl80211Attr::AttrLocalStateChange => 95,
            Nl80211Attr::AttrApIsolate => 96,
            Nl80211Attr::AttrWiphyTxPowerSetting => 97,
            Nl80211Attr::AttrWiphyTxPowerLevel => 98,
            Nl80211Attr::AttrTxFrameTypes => 99,
            Nl80211Attr::AttrRxFrameTypes => 100,
            Nl80211Attr::AttrFrameType => 101,
            Nl80211Attr::AttrControlPortEthertype => 102,
            Nl80211Attr::AttrControlPortNoEncrypt => 103,
            Nl80211Attr::AttrSupportIbssRsn => 104,
            Nl80211Attr::AttrWiphyAntennaTx => 105,
            Nl80211Attr::AttrWiphyAntennaRx => 106,
            Nl80211Attr::AttrMcastRate => 107,
            Nl80211Attr::AttrOffchannelTxOk => 108,
            Nl80211Attr::AttrBssHtOpmode => 109,
            Nl80211Attr::AttrKeyDefaultTypes => 110,
            Nl80211Attr::AttrMaxRemainOnChannelDuration => 111,
            Nl80211Attr::AttrMeshSetup => 112,
            Nl80211Attr::AttrWiphyAntennaAvailTx => 113,
            Nl80211Attr::AttrWiphyAntennaAvailRx => 114,
            Nl80211Attr::AttrSupportMeshAuth => 115,
            Nl80211Attr::AttrStaPlinkState => 116,
            Nl80211Attr::AttrWowlanTriggers => 117,
            Nl80211Attr::AttrWowlanTriggersSupported => 118,
            Nl80211Attr::AttrSchedScanInterval => 119,
            Nl80211Attr::AttrInterfaceCombinations => 120,
            Nl80211Attr::AttrSoftwareIftypes => 121,
            Nl80211Attr::AttrRekeyData => 122,
            Nl80211Attr::AttrMaxNumSchedScanSsids => 123,
            Nl80211Attr::AttrMaxSchedScanIeLen => 124,
            Nl80211Attr::AttrScanSuppRates => 125,
            Nl80211Attr::AttrHiddenSsid => 126,
            Nl80211Attr::AttrIeProbeResp => 127,
            Nl80211Attr::AttrIeAssocResp => 128,
            Nl80211Attr::AttrStaWme => 129,
            Nl80211Attr::AttrSupportApUapsd => 130,
            Nl80211Attr::AttrRoamSupport => 131,
            Nl80211Attr::AttrSchedScanMatch => 132,
            Nl80211Attr::AttrMaxMatchSets => 133,
            Nl80211Attr::AttrPmksaCandidate => 134,
            Nl80211Attr::AttrTxNoCckRate => 135,
            Nl80211Attr::AttrTdlsAction => 136,
            Nl80211Attr::AttrTdlsDialogToken => 137,
            Nl80211Attr::AttrTdlsOperation => 138,
            Nl80211Attr::AttrTdlsSupport => 139,
            Nl80211Attr::AttrTdlsExternalSetup => 140,
            Nl80211Attr::AttrDeviceApSme => 141,
            Nl80211Attr::AttrDontWaitForAck => 142,
            Nl80211Attr::AttrFeatureFlags => 143,
            Nl80211Attr::AttrProbeRespOffload => 144,
            Nl80211Attr::AttrProbeResp => 145,
            Nl80211Attr::AttrDfsRegion => 146,
            Nl80211Attr::AttrDisableHt => 147,
            Nl80211Attr::AttrHtCapabilityMask => 148,
            Nl80211Attr::AttrNoackMap => 149,
            Nl80211Attr::AttrInactivityTimeout => 150,
            Nl80211Attr::AttrRxSignalDbm => 151,
            Nl80211Attr::AttrBgScanPeriod => 152,
            Nl80211Attr::AttrWdev => 153,
            Nl80211Attr::AttrUserRegHintType => 154,
            Nl80211Attr::AttrConnFailedReason => 155,
            Nl80211Attr::AttrSaeData => 156,
            Nl80211Attr::AttrVhtCapability => 157,
            Nl80211Attr::AttrScanFlags => 158,
            Nl80211Attr::AttrChannelWidth => 159,
            Nl80211Attr::AttrCenterFreq1 => 160,
            Nl80211Attr::AttrCenterFreq2 => 161,
            Nl80211Attr::AttrP2pCtwindow => 162,
            Nl80211Attr::AttrP2pOppps => 163,
            Nl80211Attr::AttrLocalMeshPowerMode => 164,
            Nl80211Attr::AttrAclPolicy => 165,
            Nl80211Attr::AttrMacAddrs => 166,
            Nl80211Attr::AttrMacAclMax => 167,
            Nl80211Attr::AttrRadarEvent => 168,
            Nl80211Attr::AttrExtCapa => 169,
            Nl80211Attr::AttrExtCapaMask => 170,
            Nl80211Attr::AttrStaCapability => 171,
            Nl80211Attr::AttrStaExtCapability => 172,
            Nl80211Attr::AttrProtocolFeatures => 173,
            Nl80211Attr::AttrSplitWiphyDump => 174,
            Nl80211Attr::AttrDisableVht => 175,
            Nl80211Attr::AttrVhtCapabilityMask => 176,
            Nl80211Attr::AttrMdid => 177,
            Nl80211Attr::AttrIeRic => 178,
            Nl80211Attr::AttrCritProtId => 179,
            Nl80211Attr::AttrMaxCritProtDuration => 180,
            Nl80211Attr::AttrPeerAid => 181,
            Nl80211Attr::AttrCoalesceRule => 182,
            Nl80211Attr::AttrChSwitchCount => 183,
            Nl80211Attr::AttrChSwitchBlockTx => 184,
            Nl80211Attr::AttrCsaIes => 185,
            Nl80211Attr::AttrCsaCOffBeacon => 186,
            Nl80211Attr::AttrCsaCOffPresp => 187,
            Nl80211Attr::AttrRxmgmtFlags => 188,
            Nl80211Attr::AttrStaSupportedChannels => 189,
            Nl80211Attr::AttrStaSupportedOperClasses => 190,
            Nl80211Attr::AttrHandleDfs => 191,
            Nl80211Attr::AttrSupport5Mhz => 192,
            Nl80211Attr::AttrSupport10Mhz => 193,
            Nl80211Attr::AttrOpmodeNotif => 194,
            Nl80211Attr::AttrVendorId => 195,
            Nl80211Attr::AttrVendorSubcmd => 196,
            Nl80211Attr::AttrVendorData => 197,
            Nl80211Attr::AttrVendorEvents => 198,
            Nl80211Attr::AttrQosMap => 199,
            Nl80211Attr::AttrMacHint => 200,
            Nl80211Attr::AttrWiphyFreqHint => 201,
            Nl80211Attr::AttrMaxApAssocSta => 202,
            Nl80211Attr::AttrTdlsPeerCapability => 203,
            Nl80211Attr::AttrSocketOwner => 204,
            Nl80211Attr::AttrCsaCOffsetsTx => 205,
            Nl80211Attr::AttrMaxCsaCounters => 206,
            Nl80211Attr::AttrTdlsInitiator => 207,
            Nl80211Attr::AttrUseRrm => 208,
            Nl80211Attr::AttrWiphyDynAck => 209,
            Nl80211Attr::AttrTsid => 210,
            Nl80211Attr::AttrUserPrio => 211,
            Nl80211Attr::AttrAdmittedTime => 212,
            Nl80211Attr::AttrSmpsMode => 213,
            Nl80211Attr::AttrOperClass => 214,
            Nl80211Attr::AttrMacMask => 215,
            Nl80211Attr::AttrWiphySelfManagedReg => 216,
            Nl80211Attr::AttrExtFeatures => 217,
            Nl80211Attr::AttrSurveyRadioStats => 218,
            Nl80211Attr::AttrNetnsFd => 219,
            Nl80211Attr::AttrSchedScanDelay => 220,
            Nl80211Attr::AttrRegIndoor => 221,
            Nl80211Attr::AttrMaxNumSchedScanPlans => 222,
            Nl80211Attr::AttrMaxScanPlanInterval => 223,
            Nl80211Attr::AttrMaxScanPlanIterations => 224,
            Nl80211Attr::AttrSchedScanPlans => 225,
            Nl80211Attr::AttrPbss => 226,
            Nl80211Attr::AttrBssSelect => 227,
            Nl80211Attr::AttrStaSupportP2pPs => 228,
            Nl80211Attr::AttrPad => 229,
            Nl80211Attr::AttrIftypeExtCapa => 230,
            Nl80211Attr::AttrMuMimoGroupData => 231,
            Nl80211Attr::AttrMuMimoFollowMacAddr => 232,
            Nl80211Attr::AttrScanStartTimeTsf => 233,
            Nl80211Attr::AttrScanStartTimeTsfBssid => 234,
            Nl80211Attr::AttrMeasurementDuration => 235,
            Nl80211Attr::AttrMeasurementDurationMandatory => 236,
            Nl80211Attr::AttrMeshPeerAid => 237,
            Nl80211Attr::AttrNanMasterPref => 238,
            Nl80211Attr::AttrNanDual => 239,
            Nl80211Attr::AttrNanFunc => 240,
            Nl80211Attr::AttrNanMatch => 241,
            Nl80211Attr::UnrecognizedVariant(v) => *v,
        }
    }

    /// Reading a wire value as a symbol and writing it back gives the same value.
    pub proof fn lemma_round_trip(v: u16)
        ensures
            Self::spec_from_u16(v).spec_to_u16() == v,
    {
    }
}

/// Tags nested in a station-info attribute.
///
/// Every 16-bit value maps to a symbol; values outside the known range map
/// to `UnrecognizedVariant`, which keeps the raw value.
#[derive(Debug, Clone, Copy, PartialEq, Eq, Structural)]
pub enum Nl80211StaInfo {
    StaInfoInvalid,
    StaInfoInactiveTime,
    StaInfoRxBytes,
    StaInfoTxBytes,
    StaInfoLlid,
    StaInfoPlid,
    StaInfoPlinkState,
    StaInfoSignal,
    StaInfoTxBitrate,
    StaInfoRxPackets,
    StaInfoTxPackets,
    StaInfoTxRetries,
    StaInfoTxFailed,
    StaInfoSignalAvg,
    StaInfoRxBitrate,
    StaInfoBssParam,
    StaInfoConnectedTime,
    StaInfoStaFlags,
    StaInfoBeaconLoss,
    StaInfoTOffset,
    StaInfoLocalPm,
    StaInfoPeerPm,
    StaInfoNonpeerPm,
    StaInfoRxBytes64,
    StaInfoTxBytes64,
    StaInfoChainSignal,
    StaInfoChainSignalAvg,
    StaInfoExpectedThroughput,
    StaInfoRxDropMisc,
    StaInfoBeaconRx,
    StaInfoBeaconSignalAvg,
    StaInfoTidStats,
    StaInfoRxDuration,
    StaInfoPad,
    UnrecognizedVariant(u16),
}

impl Nl80211StaInfo {
    /// The symbol of a wire value.
    pub open spec fn spec_from_u16(v: u16) -> Nl80211StaInfo {
        match v {
            0 => Nl80211StaInfo::StaInfoInvalid,
            1 => Nl80211StaInfo::StaInfoInactiveTime,
            2 => Nl80211StaInfo::StaInfoRxBytes,
            3 => Nl80211StaInfo::StaInfoTxBytes,
            4 => Nl80211StaInfo::StaInfoLlid,
            5 => Nl80211StaInfo::StaInfoPlid,
            6 => Nl80211StaInfo::StaInfoPlinkState,
            7 => Nl80211StaInfo::StaInfoSignal,
            8 => Nl80211StaInfo::StaInfoTxBitrate,
            9 => Nl80211StaInfo::StaInfoRxPackets,
            10 => Nl80211StaInfo::StaInfoTxPackets,
            11 => Nl80211StaInfo::StaInfoTxRetries,
            12 => Nl80211StaInfo::StaInfoTxFailed,
            13 => Nl80211StaInfo::StaInfoSignalAvg,
            14 => Nl80211StaInfo::StaInfoRxBitrate,
            15 => Nl80211StaInfo::StaInfoBssParam,
            16 => Nl80211StaInfo::StaInfoConnectedTime,
            17 => Nl80211StaInfo::StaInfoStaFlags,
            18 => Nl80211StaInfo::StaInfoBeaconLoss,
            19 => Nl80211StaInfo::StaInfoTOffset,
            20 => Nl80211StaInfo::StaInfoLocalPm,
            21 => Nl80211StaInfo::StaInfoPeerPm,
            22 => Nl80211StaInfo::StaInfoNonpeerPm,
            23 => Nl80211StaInfo::StaInfoRxBytes64,
            24 => Nl80211StaInfo::StaInfoTxBytes64,
            25 => Nl80211StaInfo::StaInfoChainSignal,
            26 => Nl80211StaInfo::StaInfoChainSignalAvg,
            27 => Nl80211StaInfo::StaInfoExpectedThroughput,
            28 => Nl80211StaInfo::StaInfoRxDropMisc,
            29 => Nl80211StaInfo::StaInfoBeaconRx,
            30 => Nl80211StaInfo::StaInfoBeaconSignalAvg,
            31 => Nl80211StaInfo::StaInfoTidStats,
            32 => Nl80211StaInfo::StaInfoRxDuration,
            33 => Nl80211StaInfo::StaInfoPad,
            _ => Nl80211StaInfo::UnrecognizedVariant(v),
        }
    }

    /// The wire value of a symbol.
    pub open spec fn spec_to_u16(self) -> u16 {
        match self {
            Nl80211StaInfo::StaInfoInvalid => 0,
            Nl80211StaInfo::StaInfoInactiveTime => 1,
            Nl80211StaInfo::StaInfoRxBytes => 2,
            Nl80211StaInfo::StaInfoTxBytes => 3,
            Nl80211StaInfo::StaInfoLlid => 4,
            Nl80211StaInfo::StaInfoPlid => 5,
            Nl80211StaInfo::StaInfoPlinkState => 6,
            Nl80211StaInfo::StaInfoSignal => 7,
            Nl80211StaInfo::StaInfoTxBitrate => 8,
            Nl80211StaInfo::StaInfoRxPackets => 9,
            Nl80211StaInfo::StaInfoTxPackets => 10,
            Nl80211StaInfo::StaInfoTxRetries => 11,
            Nl80211StaInfo::StaInfoTxFailed => 12,
            Nl80211StaInfo::StaInfoSignalAvg => 13,
            Nl80211StaInfo::StaInfoRxBitrate => 14,
            Nl80211StaInfo::StaInfoBssParam => 15,
            Nl80211StaInfo::StaInfoConnectedTime => 16,
            Nl80211StaInfo::StaInfoStaFlags => 17,
            Nl80211StaInfo::StaInfoBeaconLoss => 18,
            Nl80211StaInfo::StaInfoTOffset => 19,
            Nl80211StaInfo::StaInfoLocalPm => 20,
            Nl80211StaInfo::StaInfoPeerPm => 21,
            Nl80211StaInfo::StaInfoNonpeerPm => 22,
            Nl80211StaInfo::StaInfoRxBytes64 => 23,
            Nl80211StaInfo::StaInfoTxBytes64 => 24,
            Nl80211StaInfo::StaInfoChainSignal => 25,
            Nl80211StaInfo::StaInfoChainSignalAvg => 26,
            Nl80211StaInfo::StaInfoExpectedThroughput => 27,
            Nl80211StaInfo::StaInfoRxDropMisc => 28,
            Nl80211StaInfo::StaInfoBeaconRx => 29,
            Nl80211StaInfo::StaInfoBeaconSignalAvg => 30,
            Nl80211StaInfo::StaInfoTidStats => 31,
            Nl80211StaInfo::StaInfoRxDuration => 32,
            Nl80211StaInfo::StaInfoPad => 33,
            Nl80211StaInfo::UnrecognizedVariant(v) => v,
        }
    }

    /// The symbol of a wire value; never fails.
    pub fn from_u16(v: u16) -> (r: Nl80211StaInfo)
        ensures
            r == Self::spec_from_u16(v),
    {
        match v {
            0 => Nl80211StaInfo::StaInfoInvalid,
            1 => Nl80211StaInfo::StaInfoInactiveTime,
            2 => Nl80211StaInfo::StaInfoRxBytes,
            3 => Nl80211StaInfo::StaInfoTxBytes,
            4 => Nl80211StaInfo::StaInfoLlid,
            5 => Nl80211StaInfo::StaInfoPlid,
            6 => Nl80211StaInfo::StaInfoPlinkState,
            7 => Nl80211StaInfo::StaInfoSignal,
            8 => Nl80211StaInfo::StaInfoTxBitrate,
            9 => Nl80211StaInfo::StaInfoRxPackets,
            10 => Nl80211StaInfo::StaInfoTxPackets,
            11 => Nl80211StaInfo::StaInfoTxRetries,
            12 => Nl80211StaInfo::StaInfoTxFailed,
            13 => Nl80211StaInfo::StaInfoSignalAvg,
            14 => Nl80211StaInfo::StaInfoRxBitrate,
            15 => Nl80211StaInfo::StaInfoBssParam,
            16 => Nl80211StaInfo::StaInfoConnectedTime,
            17 => Nl80211StaInfo::StaInfoStaFlags,
            18 => Nl80211StaInfo::StaInfoBeaconLoss,
            19 => Nl80211StaInfo::StaInfoTOffset,
            20 => Nl80211StaInfo::StaInfoLocalPm,
            21 => Nl80211StaInfo::StaInfoPeerPm,
            22 => Nl80211StaInfo::StaInfoNonpeerPm,
            23 => Nl80211StaInfo::StaInfoRxBytes64,
            24 => Nl80211StaInfo::StaInfoTxBytes64,
            25 => Nl80211StaInfo::StaInfoChainSignal,
            26 => Nl80211StaInfo::StaInfoChainSignalAvg,
            27 => Nl80211StaInfo::StaInfoExpectedThroughput,
            28 => Nl80211StaInfo::StaInfoRxDropMisc,
            29 => Nl80211StaInfo::StaInfoBeaconRx,
            30 => Nl80211StaInfo::StaInfoBeaconSignalAvg,
            31 => Nl80211StaInfo::StaInfoTidStats,
            32 => Nl80211StaInfo::StaInfoRxDuration,
            33 => Nl80211StaInfo::StaInfoPad,
            _ => Nl80211StaInfo::UnrecognizedVariant(v),
        }
    }

    /// The wire value of this symbol.
    pub fn to_u16(&self) -> (r: u16)
        ensures
            r == self.spec_to_u16(),
    {
        match self {
            Nl80211StaInfo::StaInfoInvalid => 0,
            Nl80211StaInfo::StaInfoInactiveTime => 1,
            Nl80211StaInfo::StaInfoRxBytes => 2,
            Nl80211StaInfo::StaInfoTxBytes => 3,
            Nl80211StaInfo::StaInfoLlid => 4,
            Nl80211StaInfo::StaInfoPlid => 5,
            Nl80211StaInfo::StaInfoPlinkState => 6,
            Nl80211StaInfo::StaInfoSignal => 7,
            Nl80211StaInfo::StaInfoTxBitrate => 8,
            Nl80211StaInfo::StaInfoRxPackets => 9,
            Nl80211StaInfo::StaInfoTxPackets => 10,
            Nl80211StaInfo::StaInfoTxRetries => 11,
            Nl80211StaInfo::StaInfoTxFailed => 12,
            Nl80211StaInfo::StaInfoSignalAvg => 13,
            Nl80211StaInfo::StaInfoRxBitrate => 14,
            Nl80211StaInfo::StaInfoBssParam => 15,
            Nl80211StaInfo::StaInfoConnectedTime => 16,
            Nl80211StaInfo::StaInfoStaFlags => 17,
            Nl80211StaInfo::StaInfoBeaconLoss => 18,
            Nl80211StaInfo::StaInfoTOffset => 19,
            Nl80211StaInfo::StaInfoLocalPm => 20,
            Nl80211StaInfo::StaInfoPeerPm => 21,
            Nl80211StaInfo::StaInfoNonpeerPm => 22,
            Nl80211StaInfo::StaInfoRxBytes64 => 23,
            Nl80211StaInfo::StaInfoTxBytes64 => 24,
            Nl80211StaInfo::StaInfoChainSignal => 25,
            Nl80211StaInfo::StaInfoChainSignalAvg => 26,
            Nl80211StaInfo::StaInfoExpectedThroughput => 27,
            Nl80211StaInfo::StaInfoRxDropMisc => 28,
            Nl80211StaInfo::StaInfoBeaconRx => 29,
            Nl80211StaInfo::StaInfoBeaconSignalAvg => 30,
            Nl80211StaInfo::StaInfoTidStats => 31,
            Nl80211StaInfo::StaInfoRxDuration => 32,
            Nl80211StaInfo::StaInfoPad => 33,
            Nl80211StaInfo::UnrecognizedVariant(v) => *v,
        }
    }

    /// Reading a wire value as a symbol and writing it back gives the same value.
    pub proof fn lemma_round_trip(v: u16)
        ensures
            Self::spec_from_u16(v).spec_to_u16() == v,
    {
    }
}

/// Tags nested in a bitrate attribute of station info.
///
/// Every 16-bit value maps to a symbol; values outside the known range map
/// to `UnrecognizedVariant`, which keeps the raw value.
#[derive(Debug, Clone, Copy, PartialEq, Eq, Structural)]
pub enum Nl80211RateInfo {
    RateInfoInvalid,
    RateInfoBitrate,
    RateInfoMcs,
    RateInfo40MhzWidth,
    RateInfoShortGi,
    RateInfoBitrate32,
    RateInfoVhtMcs,
    RateInfoVhtNss,
    RateInfo80MhzWidth,
    RateInfo80p80MhzWidth,
    RateInfo160MhzWidth,
    RateInfo10MhzWidth,
    RateInfo5MhzWidth,
    UnrecognizedVariant(u16),
}

impl Nl80211RateInfo {
    /// The symbol of a wire value.
    pub open spec fn spec_from_u16(v: u16) -> Nl80211RateInfo {
        match v {
            0 => Nl80211RateInfo::RateInfoInvalid,
            1 => Nl80211RateInfo::RateInfoBitrate,
            2 => Nl80211RateInfo::RateInfoMcs,
            3 => Nl80211RateInfo::RateInfo40MhzWidth,
            4 => Nl80211RateInfo::RateInfoShortGi,
            5 => Nl80211RateInfo::RateInfoBitrate32,
            6 => Nl80211RateInfo::RateInfoVhtMcs,
            7 => Nl80211RateInfo::RateInfoVhtNss,
            8 => Nl80211RateInfo::RateInfo80MhzWidth,
            9 => Nl80211RateInfo::RateInfo80p80MhzWidth,
            10 => Nl80211RateInfo::RateInfo160MhzWidth,
            11 => Nl80211RateInfo::RateInfo10MhzWidth,
            12 => Nl80211RateInfo::RateInfo5MhzWidth,
            _ => Nl80211RateInfo::UnrecognizedVariant(v),
        }
    }

    /// The wire value of a symbol.
    pub open spec fn spec_to_u16(self) -> u16 {
        match self {
            Nl80211RateInfo::RateInfoInvalid => 0,
            Nl80211RateInfo::RateInfoBitrate => 1,
            Nl80211RateInfo::RateInfoMcs => 2,
            Nl80211RateInfo::RateInfo40MhzWidth => 3,
            Nl80211RateInfo::RateInfoShortGi => 4,
            Nl80211RateInfo::RateInfoBitrate32 => 5,
            Nl80211RateInfo::RateInfoVhtMcs => 6,
            Nl80211RateInfo::RateInfoVhtNss => 7,
            Nl80211RateInfo::RateInfo80MhzWidth => 8,
            Nl80211RateInfo::RateInfo80p80MhzWidth => 9,
            Nl80211RateInfo::RateInfo160MhzWidth => 10,
            Nl80211RateInfo::RateInfo10MhzWidth => 11,
            Nl80211RateInfo::RateInfo5MhzWidth => 12,
            Nl80211RateInfo::UnrecognizedVariant(v) => v,
        }
    }

    /// The symbol of a wire value; never fails.
    pub fn from_u16(v: u16) -> (r: Nl80211RateInfo)
        ensures
            r == Self::spec_from_u16(v),
    {
        match v {
            0 => Nl80211RateInfo::RateInfoInvalid,
            1 => Nl80211RateInfo::RateInfoBitrate,
            2 => Nl80211RateInfo::RateInfoMcs,
            3 => Nl80211RateInfo::RateInfo40MhzWidth,
            4 => Nl80211RateInfo::RateInfoShortGi,
            5 => Nl80211RateInfo::RateInfoBitrate32,
            6 => Nl80211RateInfo::RateInfoVhtMcs,
            7 => Nl80211RateInfo::RateInfoVhtNss,
            8 => Nl80211RateInfo::RateInfo80MhzWidth,
            9 => Nl80211RateInfo::RateInfo80p80MhzWidth,
            10 => Nl80211RateInfo::RateInfo160MhzWidth,
            11 => Nl80211RateInfo::RateInfo10MhzWidth,
            12 => Nl80211RateInfo::RateInfo5MhzWidth,
            _ => Nl80211RateInfo::UnrecognizedVariant(v),
        }
    }

    /// The wire value of this symbol.
    pub fn to_u16(&self) -> (r: u16)
        ensures
            r == self.spec_to_u16(),
    {
        match self {
            Nl80211RateInfo::RateInfoInvalid => 0,
            Nl80211RateInfo::RateInfoBitrate => 1,
            Nl80211RateInfo::RateInfoMcs => 2,
            Nl80211RateInfo::RateInfo40MhzWidth => 3,
            Nl80211RateInfo::RateInfoShortGi => 4,
            Nl80211RateInfo::RateInfoBitrate32 => 5,
            Nl80211RateInfo::RateInfoVhtMcs => 6,
            Nl80211RateInfo::RateInfoVhtNss => 7,
            Nl80211RateInfo::RateInfo80MhzWidth => 8,
            Nl80211RateInfo::RateInfo80p80MhzWidth => 9,
            Nl80211RateInfo::RateInfo160MhzWidth => 10,
            Nl80211RateInfo::RateInfo10MhzWidth => 11,
            Nl80211RateInfo::RateInfo5MhzWidth => 12,
            Nl80211RateInfo::UnrecognizedVariant(v) => *v,
        }
    }

    /// Reading a wire value as a symbol and writing it back gives the same value.
    pub proof fn lemma_round_trip(v: u16)
        ensures
            Self::spec_from_u16(v).spec_to_u16() == v,
    {
    }
}

/// Tags nested in a BSS attribute of a scan result.
///
/// Every 16-bit value maps to a symbol; values outside the known range map
/// to `UnrecognizedVariant`, which keeps the raw value.
#[derive(Debug, Clone, Copy, PartialEq, Eq, Structural)]
pub enum Nl80211Bss {
    BssInvalid,
    BssBssid,
    BssFrequency,
    BssTsf,
    BssBeaconInterval,
    BssCapability,
    BssInformationElements,
    BssSignalMbm,
    BssSignalUnspec,
    BssStatus,
    BssSeenMsAgo,
    BssBeaconIes,
    BssChanWidth,
    BssBeaconTsf,
    BssPrespData,
    BssLastSeenBoottime,
    BssPad,
    BssParentTsf,
    BssParentBssid,
    UnrecognizedVariant(u16),
}

impl Nl80211Bss {
    /// The symbol of a wire value.
    pub open spec fn spec_from_u16(v: u16) -> Nl80211Bss {
        match v {
            0 => Nl80211Bss::BssInvalid,
            1 => Nl80211Bss::BssBssid,
            2 => Nl80211Bss::BssFrequency,
            3 => Nl80211Bss::BssTsf,
            4 => Nl80211Bss::BssBeaconInterval,
            5 => Nl80211Bss::BssCapability,
            6 => Nl80211Bss::BssInformationElements,
            7 => Nl80211Bss::BssSignalMbm,
            8 => Nl80211Bss::BssSignalUnspec,
            9 => Nl80211Bss::BssStatus,
            10 => Nl80211Bss::BssSeenMsAgo,
            11 => Nl80211Bss::BssBeaconIes,
            12 => Nl80211Bss::BssChanWidth,
            13 => Nl80211Bss::BssBeaconTsf,
            14 => Nl80211Bss::BssPrespData,
            15 => Nl80211Bss::BssLastSeenBoottime,
            16 => Nl80211Bss::BssPad,
            17 => Nl80211Bss::BssParentTsf,
            18 => Nl80211Bss::BssParentBssid,
            _ => Nl80211Bss::UnrecognizedVariant(v),
        }
    }

    /// The wire value of a symbol.
    pub open spec fn spec_to_u16(self) -> u16 {
        match self {
            Nl80211Bss::BssInvalid => 0,
            Nl80211Bss::BssBssid => 1,
            Nl80211Bss::BssFrequency => 2,
            Nl80211Bss::BssTsf => 3,
            Nl80211Bss::BssBeaconInterval => 4,
            Nl80211Bss::BssCapability => 5,
            Nl80211Bss::BssInformationElements => 6,
            Nl80211Bss::BssSignalMbm => 7,
            Nl80211Bss::BssSignalUnspec => 8,
            Nl80211Bss::BssStatus => 9,
            Nl80211Bss::BssSeenMsAgo => 10,
            Nl80211Bss::BssBeaconIes => 11,
            Nl80211Bss::BssChanWidth => 12,
            Nl80211Bss::BssBeaconTsf => 13,
            Nl80211Bss::BssPrespData => 14,
            Nl80211Bss::BssLastSeenBoottime => 15,
            Nl80211Bss::BssPad => 16,
            Nl80211Bss::BssParentTsf => 17,
            Nl80211Bss::BssParentBssid => 18,
            Nl80211Bss::UnrecognizedVariant(v) => v,
        }
    }

    /// The symbol of a wire value; never fails.
    pub fn from_u16(v: u16) -> (r: Nl80211Bss)
        ensures
            r == Self::spec_from_u16(v),
    {
        match v {
            0 => Nl80211Bss::BssInvalid,
            1 => Nl80211Bss::BssBssid,
            2 => Nl80211Bss::BssFrequency,
            3 => Nl80211Bss::BssTsf,
            4 => Nl80211Bss::BssBeaconInterval,
            5 => Nl80211Bss::BssCapability,
            6 => Nl80211Bss::BssInformationElements,
            7 => Nl80211Bss::BssSignalMbm,
            8 => Nl80211Bss::BssSignalUnspec,
            9 => Nl80211Bss::BssStatus,
            10 => Nl80211Bss::BssSeenMsAgo,
            11 => Nl80211Bss::BssBeaconIes,
            12 => Nl80211Bss::BssChanWidth,
            13 => Nl80211Bss::BssBeaconTsf,
            14 => Nl80211Bss::BssPrespData,
            15 => Nl80211Bss::BssLastSeenBoottime,
            16 => Nl80211Bss::BssPad,
            17 => Nl80211Bss::BssParentTsf,
            18 => Nl80211Bss::BssParentBssid,
            _ => Nl80211Bss::UnrecognizedVariant(v),
        }
    }

    /// The wire value of this symbol.
    pub fn to_u16(&self) -> (r: u16)
        ensures
            r == self.spec_to_u16(),
    {
        match self {
            Nl80211Bss::BssInvalid => 0,
            Nl80211Bss::BssBssid => 1,
            Nl80211Bss::BssFrequency => 2,
            Nl80211Bss::BssTsf => 3,
            Nl80211Bss::BssBeaconInterval => 4,
            Nl80211Bss::BssCapability => 5,
            Nl80211Bss::BssInformationElements => 6,
            Nl80211Bss::BssSignalMbm => 7,
            Nl80211Bss::BssSignalUnspec => 8,
            Nl80211Bss::BssStatus => 9,
            Nl80211Bss::BssSeenMsAgo => 10,
            Nl80211Bss::BssBeaconIes => 11,
            Nl80211Bss::BssChanWidth => 12,
            Nl80211Bss::BssBeaconTsf => 13,
            Nl80211Bss::BssPrespData => 14,
            Nl80211Bss::BssLastSeenBoottime => 15,
            Nl80211Bss::BssPad => 16,
            Nl80211Bss::BssParentTsf => 17,
            Nl80211Bss::BssParentBssid => 18,
            Nl80211Bss::UnrecognizedVariant(v) => *v,
        }
    }

    /// Reading a wire value as a symbol and writing it back gives the same value.
    pub proof fn lemma_round_trip(v: u16)
        ensures
            Self::spec_from_u16(v).spec_to_u16() == v,
    {
    }
}

/// Values of the BSS status attribute.
///
/// Every 16-bit value maps to a symbol; values outside the known range map
/// to `UnrecognizedVariant`, which keeps the raw value.
#[derive(Debug, Clone, Copy, PartialEq, Eq, Structural)]
pub enum Nl80211BssStatus {
    BssStatusAuthenticated,
    BssStatusAssociated,
    BssStatusIbssJoined,
    UnrecognizedVariant(u16),
}

impl Nl80211BssStatus {
    /// The symbol of a wire value.
    pub open spec fn spec_from_u16(v: u16) -> Nl80211BssStatus {
        match v {
            0 => Nl80211BssStatus::BssStatusAuthenticated,
            1 => Nl80211BssStatus::BssStatusAssociated,
            2 => Nl80211BssStatus::BssStatusIbssJoined,
            _ => Nl80211BssStatus::UnrecognizedVariant(v),
        }
    }

    /// The wire value of a symbol.
    pub open spec fn spec_to_u16(self) -> u16 {
        match self {
            Nl80211BssStatus::BssStatusAuthenticated => 0,
            Nl80211BssStatus::BssStatusAssociated => 1,
            Nl80211BssStatus::BssStatusIbssJoined => 2,
            Nl80211BssStatus::UnrecognizedVariant(v) => v,
        }
    }

    /// The symbol of a wire value; never fails.
    pub fn from_u16(v: u16) -> (r: Nl80211BssStatus)
        ensures
            r == Self::spec_from_u16(v),
    {
        match v {
            0 => Nl80211BssStatus::BssStatusAuthenticated,
            1 => Nl80211BssStatus::BssStatusAssociated,
            2 => Nl80211BssStatus::BssStatusIbssJoined,
            _ => Nl80211BssStatus::UnrecognizedVariant(v),
        }
    }

    /// The wire value of this symbol.
    pub fn to_u16(&self) -> (r: u16)
        ensures
            r == self.spec_to_u16(),
    {
        match self {
            Nl80211BssStatus::BssStatusAuthenticated => 0,
            Nl80211BssStatus::BssStatusAssociated => 1,
            Nl80211BssStatus::BssStatusIbssJoined => 2,
            Nl80211BssStatus::UnrecognizedVariant(v) => *v,
        }
    }

    /// Reading a wire value as a symbol and writing it back gives the same value.
    pub proof fn lemma_round_trip(v: u16)
        ensures
            Self::spec_from_u16(v).spec_to_u16() == v,
    {
    }
}

/// Regulatory-rule flag bits.
pub const RRF_NO_OFDM: u32 = 1 << 0;
pub const RRF_NO_CCK: u32 = 1 << 1;
pub const RRF_NO_INDOOR: u32 = 1 << 2;
pub const RRF_NO_OUTDOOR: u32 = 1 << 3;
pub const RRF_DFS: u32 = 1 << 4;
pub const RRF_PTP_ONLY: u32 = 1 << 5;
pub const RRF_PTMP_ONLY: u32 = 1 << 6;
pub const RRF_NO_IR: u32 = 1 << 7;
pub const RRF_NO_IBSS: u32 = 1 << 8;
pub const RRF_AUTO_BW: u32 = 1 << 11;
pub const RRF_IR_CONCURRENT: u32 = 1 << 12;
pub const RRF_NO_HT40MINUS: u32 = 1 << 13;
pub const RRF_NO_HT40PLUS: u32 = 1 << 14;
pub const RRF_NO_80MHZ: u32 = 1 << 15;
pub const RRF_NO_160MHZ: u32 = 1 << 16;

/// Flags of a regulatory rule, combined as a bit mask.
#[derive(Debug, Clone, Copy, PartialEq, Eq, Structural)]
pub struct RegRuleFlags(pub u32);

impl RegRuleFlags {
    /// The flags set in a mask read from the wire.
    pub fn from_bits(bits: u32) -> (r: RegRuleFlags)
        ensures
            r.0 == bits,
    {
        RegRuleFlags(bits)
    }

    /// The mask as it goes on the wire.
    pub fn bits(&self) -> (r: u32)
        ensures
            r == self.0,
    {
        self.0
    }

    /// Whether every bit of `flag` is set.
    pub fn contains(&self, flag: u32) -> (r: bool)
        ensures
            r == (self.0 & flag == flag),
    {
        self.0 & flag == flag
    }
}

/// Device feature flag bits.
pub const FEATURE_SK_TX_STATUS: u32 = 1 << 0;
pub const FEATURE_HT_IBSS: u32 = 1 << 1;
pub const FEATURE_INACTIVITY_TIMER: u32 = 1 << 2;
pub const FEATURE_CELL_BASE_REG_HINTS: u32 = 1 << 3;
pub const FEATURE_P2P_DEVICE_NEEDS_CHANNEL: u32 = 1 << 4;
pub const FEATURE_SAE: u32 = 1 << 5;
pub const FEATURE_LOW_PRIORITY_SCAN: u32 = 1 << 6;
pub const FEATURE_SCAN_FLUSH: u32 = 1 << 7;
pub const FEATURE_AP_SCAN: u32 = 1 << 8;
pub const FEATURE_VIF_TXPOWER: u32 = 1 << 9;
pub const FEATURE_NEED_OBSS_SCAN: u32 = 1 << 10;
pub const FEATURE_P2P_GO_CTWIN: u32 = 1 << 11;
pub const FEATURE_P2P_GO_OPPPS: u32 = 1 << 12;
pub const FEATURE_ADVERTISE_CHAN_LIMITS: u32 = 1 << 14;
pub const FEATURE_FULL_AP_CLIENT_STATE: u32 = 1 << 15;
pub const FEATURE_USERSPACE_MPM: u32 = 1 << 16;
pub const FEATURE_ACTIVE_MONITOR: u32 = 1 << 17;
pub const FEATURE_AP_MODE_CHAN_WIDTH_CHANGE: u32 = 1 << 18;
pub const FEATURE_DS_PARAM_SET_IE_IN_PROBES: u32 = 1 << 19;
pub const FEATURE_WFA_TPC_IE_IN_PROBES: u32 = 1 << 20;
pub const FEATURE_QUIET: u32 = 1 << 21;
pub const FEATURE_TX_POWER_INSERTION: u32 = 1 << 22;
pub const FEATURE_ACKTO_ESTIMATION: u32 = 1 << 23;
pub const FEATURE_STATIC_SMPS: u32 = 1 << 24;
pub const FEATURE_DYNAMIC_SMPS: u32 = 1 << 25;
pub const FEATURE_SUPPORTS_WMM_ADMISSION: u32 = 1 << 26;
pub const FEATURE_MAC_ON_CREATE: u32 = 1 << 27;
pub const FEATURE_TDLS_CHANNEL_SWITCH: u32 = 1 << 28;
pub const FEATURE_SCAN_RANDOM_MAC_ADDR: u32 = 1 << 29;
pub const FEATURE_SCHED_SCAN_RANDOM_MAC_ADDR: u32 = 1 << 30;
pub const FEATURE_ND_RANDOM_MAC_ADDR: u32 = 1 << 31;

/// Features a wireless device advertises, combined as a bit mask.
#[derive(Debug, Clone, Copy, PartialEq, Eq, Structural)]
pub struct FeatureFlags(pub u32);

impl FeatureFlags {
    /// The flags set in a mask read from the wire.
    pub fn from_bits(bits: u32) -> (r: FeatureFlags)
        ensures
            r.0 == bits,
    {
        FeatureFlags(bits)
    }

    /// The mask as it goes on the wire.
    pub fn bits(&self) -> (r: u32)
        ensures
            r == self.0,
    {
        self.0
    }

    /// Whether every bit of `flag` is set.
    pub fn contains(&self, flag: u32) -> (r: bool)
        ensures
            r == (self.0 & flag == flag),
    {
        self.0 & flag == flag
    }
}

} // verus!
