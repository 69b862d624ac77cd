use vstd::prelude::*;

verus! {

/// Procedure carried by an S1AP InitiatingMessage.
#[derive(Clone, Copy, Debug, PartialEq, Eq, Structural)]
pub enum InitiatingProcedure {
    CellTrafficTrace,
    ConnectionEstablishmentIndication,
    DeactivateTrace,
    DownlinkS1cdma2000tunnelling,
    ERabModificationIndication,
    ERabModify,
    ERabRelease,
    ERabReleaseIndication,
    ERabSetup,
    EnbConfigurationUpdate,
    ErrorIndication,
    HandoverCancel,
    HandoverNotification,
    HandoverPreparation,
    HandoverResourceAllocation,
    HandoverSuccess,
    InitialContextSetup,
    Kill,
    LocationReport,
    LocationReportingControl,
    LocationReportingFailureIndication,
    MmeCpRelocationIndication,
    MmeConfigurationTransfer,
    MmeConfigurationUpdate,
    MmeDirectInformationTransfer,
    MmeEarlyStatusTransfer,
    MmeStatusTransfer,
    NasDeliveryIndication,
    NasNonDeliveryIndication,
    OverloadStart,
    OverloadStop,
    PwsFailureIndication,
    PwsRestartIndication,
    Paging,
    PathSwitchRequest,
    RerouteNasRequest,
    Reset,
    RetrieveUeInformation,
    S1Setup,
    SecondaryRatDataUsageReport,
    TraceFailureIndication,
    TraceStart,
    UeCapabilityInfoIndication,
    UeContextModification,
    UeContextModificationIndication,
    UeContextRelease,
    UeContextReleaseRequest,
    UeContextResume,
    UeContextSuspend,
    UeInformationTransfer,
    UeRadioCapabilityIdMapping,
    UeRadioCapabilityMatch,
    UplinkS1cdma2000tunnelling,
    WriteReplaceWarning,
    DownlinkNasTransport,
    DownlinkNonUeAssociatedLppaTransport,
    DownlinkUeAssociatedLppaTransport,
    EnbCpRelocationIndication,
    EnbConfigurationTransfer,
    EnbDirectInformationTransfer,
    EnbEarlyStatusTransfer,
    EnbStatusTransfer,
    InitialUeMessage,
    UplinkNasTransport,
    UplinkNonUeAssociatedLppaTransport,
    UplinkUeAssociatedLppaTransport,
}

impl InitiatingProcedure {
    /// The number that identifies this procedure among initiating messages in a response code.
    pub open spec fn spec_number(self) -> u32 {
        match self {
            InitiatingProcedure::CellTrafficTrace => 1,
            InitiatingProcedure::ConnectionEstablishmentIndication => 2,
            InitiatingProcedure::DeactivateTrace => 3,
            InitiatingProcedure::DownlinkS1cdma2000tunnelling => 4,
            InitiatingProcedure::ERabModificationIndication => 5,
            InitiatingProcedure::ERabModify => 6,
            InitiatingProcedure::ERabRelease => 7,
            InitiatingProcedure::ERabReleaseIndication => 8,
            InitiatingProcedure::ERabSetup => 9,
            InitiatingProcedure::EnbConfigurationUpdate => 10,
            InitiatingProcedure::ErrorIndication => 11,
            InitiatingProcedure::HandoverCancel => 12,
            InitiatingProcedure::HandoverNotification => 13,
            InitiatingProcedure::HandoverPreparation => 14,
            InitiatingProcedure::HandoverResourceAllocation => 15,
            InitiatingProcedure::HandoverSuccess => 16,
            InitiatingProcedure::InitialContextSetup => 17,
            InitiatingProcedure::Kill => 18,
            InitiatingProcedure::LocationReport => 19,
            InitiatingProcedure::LocationReportingControl => 20,
            InitiatingProcedure::LocationReportingFailureIndication => 21,
            InitiatingProcedure::MmeCpRelocationIndication => 22,
            InitiatingProcedure::MmeConfigurationTransfer => 23,
            InitiatingProcedure::MmeConfigurationUpdate => 24,
            InitiatingProcedure::MmeDirectInformationTransfer => 25,
            InitiatingProcedure::MmeEarlyStatusTransfer => 26,
            InitiatingProcedure::MmeStatusTransfer => 27,
            InitiatingProcedure::NasDeliveryIndication => 28,
            InitiatingProcedure::NasNonDeliveryIndication => 29,
            InitiatingProcedure::OverloadStart => 30,
            InitiatingProcedure::OverloadStop => 31,
            InitiatingProcedure::PwsFailureIndication => 32,
            InitiatingProcedure::PwsRestartIndication => 33,
            InitiatingProcedure::Paging => 34,
            InitiatingProcedure::PathSwitchRequest => 35,
            InitiatingProcedure::RerouteNasRequest => 37,
            InitiatingProcedure::Reset => 38,
            InitiatingProcedure::RetrieveUeInformation => 39,
            InitiatingProcedure::S1Setup => 40,
            InitiatingProcedure::SecondaryRatDataUsageReport => 41,
            InitiatingProcedure::TraceFailureIndication => 42,
            InitiatingProcedure::TraceStart => 43,
            InitiatingProcedure::UeCapabilityInfoIndication => 44,
            InitiatingProcedure::UeContextModification => 45,
            InitiatingProcedure::UeContextModificationIndication => 46,
            InitiatingProcedure::UeContextRelease => 47,
            InitiatingProcedure::UeContextReleaseRequest => 48,
            InitiatingProcedure::UeContextResume => 49,
            InitiatingProcedure::UeContextSuspend => 50,
            InitiatingProcedure::UeInformationTransfer => 51,
            InitiatingProcedure::UeRadioCapabilityIdMapping => 52,
            InitiatingProcedure::UeRadioCapabilityMatch => 53,
            InitiatingProcedure::UplinkS1cdma2000tunnelling => 54,
            InitiatingProcedure::WriteReplaceWarning => 55,
            InitiatingProcedure::DownlinkNasTransport => 56,
            InitiatingProcedure::DownlinkNonUeAssociatedLppaTransport => 57,
            InitiatingProcedure::DownlinkUeAssociatedLppaTransport => 58,
            InitiatingProcedure::EnbCpRelocationIndication => 59,
            InitiatingProcedure::EnbConfigurationTransfer => 60,
            InitiatingProcedure::EnbDirectInformationTransfer => 61,
            InitiatingProcedure::EnbEarlyStatusTransfer => 62,
            InitiatingProcedure::EnbStatusTransfer => 63,
            InitiatingProcedure::InitialUeMessage => 64,
            InitiatingProcedure::UplinkNasTransport => 65,
            InitiatingProcedure::UplinkNonUeAssociatedLppaTransport => 66,
            InitiatingProcedure::UplinkUeAssociatedLppaTransport => 67,
        }
    }

    /// The procedure that a number stands for, if any.
    pub open spec fn from_number(n: u32) -> Option<InitiatingProcedure> {
        match n {
            1u32 => Some(InitiatingProcedure::CellTrafficTrace),
            2u32 => Some(InitiatingProcedure::ConnectionEstablishmentIndication),
            3u32 => Some(InitiatingProcedure::DeactivateTrace),
            4u32 => Some(InitiatingProcedure::DownlinkS1cdma2000tunnelling),
            5u32 => Some(InitiatingProcedure::ERabModificationIndication),
            6u32 => Some(InitiatingProcedure::ERabModify),
            7u32 => Some(InitiatingProcedure::ERabRelease),
            8u32 => Some(InitiatingProcedure::ERabReleaseIndication),
            9u32 => Some(InitiatingProcedure::ERabSetup),
            10u32 => Some(InitiatingProcedure::EnbConfigurationUpdate),
            11u32 => Some(InitiatingProcedure::ErrorIndication),
            12u32 => Some(InitiatingProcedure::HandoverCancel),
            13u32 => Some(InitiatingProcedure::HandoverNotification),
            14u32 => Some(InitiatingProcedure::HandoverPreparation),
            15u32 => Some(InitiatingProcedure::HandoverResourceAllocation),
            16u32 => Some(InitiatingProcedure::HandoverSuccess),
            17u32 => Some(InitiatingProcedure::InitialContextSetup),
            18u32 => Some(InitiatingProcedure::Kill),
            19u32 => Some(InitiatingProcedure::LocationReport),
            20u32 => Some(InitiatingProcedure::LocationReportingControl),
            21u32 => Some(InitiatingProcedure::LocationReportingFailureIndication),
            22u32 => Some(InitiatingProcedure::MmeCpRelocationIndication),
            23u32 => Some(InitiatingProcedure::MmeConfigurationTransfer),
            24u32 => Some(InitiatingProcedure::MmeConfigurationUpdate),
            25u32 => Some(InitiatingProcedure::MmeDirectInformationTransfer),
            26u32 => Some(InitiatingProcedure::MmeEarlyStatusTransfer),
            27u32 => Some(InitiatingProcedure::MmeStatusTransfer),
            28u32 => Some(InitiatingProcedure::NasDeliveryIndication),
            29u32 => Some(InitiatingProcedure::NasNonDeliveryIndication),
            30u32 => Some(InitiatingProcedure::OverloadStart),
            31u32 => Some(InitiatingProcedure::OverloadStop),
            32u32 => Some(InitiatingProcedure::PwsFailureIndication),
            33u32 => Some(InitiatingProcedure::PwsRestartIndication),
            34u32 => Some(InitiatingProcedure::Paging),
            35u32 => Some(InitiatingProcedure::PathSwitchRequest),
            37u32 => Some(InitiatingProcedure::RerouteNasRequest),
            38u32 => Some(InitiatingProcedure::Reset),
            39u32 => Some(InitiatingProcedure::RetrieveUeInformation),
            40u32 => Some(InitiatingProcedure::S1Setup),
            41u32 => Some(InitiatingProcedure::SecondaryRatDataUsageReport),
            42u32 => Some(InitiatingProcedure::TraceFailureIndication),
            43u32 => Some(InitiatingProcedure::TraceStart),
            44u32 => Some(InitiatingProcedure::UeCapabilityInfoIndication),
            45u32 => Some(InitiatingProcedure::UeContextModification),
            46u32 => Some(InitiatingProcedure::UeContextModificationIndication),
            47u32 => Some(InitiatingProcedure::UeContextRelease),
            48u32 => Some(InitiatingProcedure::UeContextReleaseRequest),
            49u32 => Some(InitiatingProcedure::UeContextResume),
            50u32 => Some(InitiatingProcedure::UeContextSuspend),
            51u32 => Some(InitiatingProcedure::UeInformationTransfer),
            52u32 => Some(InitiatingProcedure::UeRadioCapabilityIdMapping),
            53u32 => Some(InitiatingProcedure::UeRadioCapabilityMatch),
            54u32 => Some(InitiatingProcedure::UplinkS1cdma2000tunnelling),
            55u32 => Some(InitiatingProcedure::WriteReplaceWarning),
            56u32 => Some(InitiatingProcedure::DownlinkNasTransport),
            57u32 => Some(InitiatingProcedure::DownlinkNonUeAssociatedLppaTransport),
            58u32 => Some(InitiatingProcedure::DownlinkUeAssociatedLppaTransport),
            59u32 => Some(InitiatingProcedure::EnbCpRelocationIndication),
            60u32 => Some(InitiatingProcedure::EnbConfigurationTransfer),
            61u32 => Some(InitiatingProcedure::EnbDirectInformationTransfer),
            62u32 => Some(InitiatingProcedure::EnbEarlyStatusTransfer),
            63u32 => Some(InitiatingProcedure::EnbStatusTransfer),
            64u32 => Some(InitiatingProcedure::InitialUeMessage),
            65u32 => Some(InitiatingProcedure::UplinkNasTransport),
            66u32 => Some(InitiatingProcedure::UplinkNonUeAssociatedLppaTransport),
            67u32 => Some(InitiatingProcedure::UplinkUeAssociatedLppaTransport),
            _ => None,
        }
    }

    /// Executable form of [`Self::spec_number`].
    pub fn number(&self) -> (r: u32)
        ensures
            r == self.spec_number(),
    {
        match self {
            InitiatingProcedure::CellTrafficTrace => 1,
            InitiatingProcedure::ConnectionEstablishmentIndication => 2,
            InitiatingProcedure::DeactivateTrace => 3,
            InitiatingProcedure::DownlinkS1cdma2000tunnelling => 4,
            InitiatingProcedure::ERabModificationIndication => 5,
            InitiatingProcedure::ERabModify => 6,
            InitiatingProcedure::ERabRelease => 7,
            InitiatingProcedure::ERabReleaseIndication => 8,
            InitiatingProcedure::ERabSetup => 9,
            InitiatingProcedure::EnbConfigurationUpdate => 10,
            InitiatingProcedure::ErrorIndication => 11,
            InitiatingProcedure::HandoverCancel => 12,
            InitiatingProcedure::HandoverNotification => 13,
            InitiatingProcedure::HandoverPreparation => 14,
            InitiatingProcedure::HandoverResourceAllocation => 15,
            InitiatingProcedure::HandoverSuccess => 16,
            InitiatingProcedure::InitialContextSetup => 17,
            InitiatingProcedure::Kill => 18,
            InitiatingProcedure::LocationReport => 19,
            InitiatingProcedure::LocationReportingControl => 20,
            InitiatingProcedure::LocationReportingFailureIndication => 21,
            InitiatingProcedure::MmeCpRelocationIndication => 22,
            InitiatingProcedure::MmeConfigurationTransfer => 23,
            InitiatingProcedure::MmeConfigurationUpdate => 24,
            InitiatingProcedure::MmeDirectInformationTransfer => 25,
            InitiatingProcedure::MmeEarlyStatusTransfer => 26,
            InitiatingProcedure::MmeStatusTransfer => 27,
            InitiatingProcedure::NasDeliveryIndication => 28,
            InitiatingProcedure::NasNonDeliveryIndication => 29,
            InitiatingProcedure::OverloadStart => 30,
            InitiatingProcedure::OverloadStop => 31,
            InitiatingProcedure::PwsFailureIndication => 32,
            InitiatingProcedure::PwsRestartIndication => 33,
            InitiatingProcedure::Paging => 34,
            InitiatingProcedure::PathSwitchRequest => 35,
            InitiatingProcedure::RerouteNasRequest => 37,
            InitiatingProcedure::Reset => 38,
            InitiatingProcedure::RetrieveUeInformation => 39,
            InitiatingProcedure::S1Setup => 40,
            InitiatingProcedure::SecondaryRatDataUsageReport => 41,
            InitiatingProcedure::TraceFailureIndication => 42,
            InitiatingProcedure::TraceStart => 43,
            InitiatingProcedure::UeCapabilityInfoIndication => 44,
            InitiatingProcedure::UeContextModification => 45,
            InitiatingProcedure::UeContextModificationIndication => 46,
            InitiatingProcedure::UeContextRelease => 47,
            InitiatingProcedure::UeContextReleaseRequest => 48,
            InitiatingProcedure::UeContextResume => 49,
            InitiatingProcedure::UeContextSuspend => 50,
            InitiatingProcedure::UeInformationTransfer => 51,
            InitiatingProcedure::UeRadioCapabilityIdMapping => 52,
            InitiatingProcedure::UeRadioCapabilityMatch => 53,
            InitiatingProcedure::UplinkS1cdma2000tunnelling => 54,
            InitiatingProcedure::WriteReplaceWarning => 55,
            InitiatingProcedure::DownlinkNasTransport => 56,
            InitiatingProcedure::DownlinkNonUeAssociatedLppaTransport => 57,
            InitiatingProcedure::DownlinkUeAssociatedLppaTransport => 58,
            InitiatingProcedure::EnbCpRelocationIndication => 59,
            InitiatingProcedure::EnbConfigurationTransfer => 60,
            InitiatingProcedure::EnbDirectInformationTransfer => 61,
            InitiatingProcedure::EnbEarlyStatusTransfer => 62,
            InitiatingProcedure::EnbStatusTransfer => 63,
            InitiatingProcedure::InitialUeMessage => 64,
            InitiatingProcedure::UplinkNasTransport => 65,
            InitiatingProcedure::UplinkNonUeAssociatedLppaTransport => 66,
            InitiatingProcedure::UplinkUeAssociatedLppaTransport => 67,
        }
    }

    /// Every procedure has a number in `1..=67`, and the number gives the
    /// procedure back.
    pub proof fn lemma_number_inverse(self)
        ensures
            1 <= self.spec_number() <= 67,
            self.spec_number() != 36,
            InitiatingProcedure::from_number(self.spec_number()) == Some(self),
    {
    }
}

/// Procedure carried by an S1AP SuccessfulOutcome.
#[derive(Clone, Copy, Debug, PartialEq, Eq, Structural)]
pub enum SuccessfulProcedure {
    ERabModificationIndication,
    ERabModify,
    ERabRelease,
    ERabSetup,
    EnbConfigurationUpdate,
    HandoverCancel,
    HandoverPreparation,
    HandoverResourceAllocation,
    InitialContextSetup,
    Kill,
    MmeConfigurationUpdate,
    PathSwitchRequest,
    Reset,
    S1Setup,
    UeContextModification,
    UeContextModificationIndication,
    UeContextRelease,
    UeContextResume,
    UeContextSuspend,
    UeRadioCapabilityIdMapping,
    UeRadioCapabilityMatch,
    WriteReplaceWarning,
}

impl SuccessfulProcedure {
    /// The number that identifies this procedure among successful outcomes in a response code.
    pub open spec fn spec_number(self) -> u32 {
        match self {
            SuccessfulProcedure::ERabModificationIndication => 1,
            SuccessfulProcedure::ERabModify => 2,
            SuccessfulProcedure::ERabRelease => 3,
            SuccessfulProcedure::ERabSetup => 4,
            SuccessfulProcedure::EnbConfigurationUpdate => 5,
            SuccessfulProcedure::HandoverCancel => 6,
            SuccessfulProcedure::HandoverPreparation => 7,
            SuccessfulProcedure::HandoverResourceAllocation => 8,
            SuccessfulProcedure::InitialContextSetup => 9,
            SuccessfulProcedure::Kill => 10,
            SuccessfulProcedure::MmeConfigurationUpdate => 11,
            SuccessfulProcedure::PathSwitchRequest => 12,
            SuccessfulProcedure::Reset => 13,
            SuccessfulProcedure::S1Setup => 14,
            SuccessfulProcedure::UeContextModification => 15,
            SuccessfulProcedure::UeContextModificationIndication => 16,
            SuccessfulProcedure::UeContextRelease => 17,
            SuccessfulProcedure::UeContextResume => 18,
            SuccessfulProcedure::UeContextSuspend => 19,
            SuccessfulProcedure::UeRadioCapabilityIdMapping => 20,
            SuccessfulProcedure::UeRadioCapabilityMatch => 21,
            SuccessfulProcedure::WriteReplaceWarning => 22,
        }
    }

    /// The procedure that a number stands for, if any.
    pub open spec fn from_number(n: u32) -> Option<SuccessfulProcedure> {
        match n {
            1u32 => Some(SuccessfulProcedure::ERabModificationIndication),
            2u32 => Some(SuccessfulProcedure::ERabModify),
            3u32 => Some(SuccessfulProcedure::ERabRelease),
            4u32 => Some(SuccessfulProcedure::ERabSetup),
            5u32 => Some(SuccessfulProcedure::EnbConfigurationUpdate),
            6u32 => Some(SuccessfulProcedure::HandoverCancel),
            7u32 => Some(SuccessfulProcedure::HandoverPreparation),
            8u32 => Some(SuccessfulProcedure::HandoverResourceAllocation),
            9u32 => Some(SuccessfulProcedure::InitialContextSetup),
            10u32 => Some(SuccessfulProcedure::Kill),
            11u32 => Some(SuccessfulProcedure::MmeConfigurationUpdate),
            12u32 => Some(SuccessfulProcedure::PathSwitchRequest),
            13u32 => Some(SuccessfulProcedure::Reset),
            14u32 => Some(SuccessfulProcedure::S1Setup),
            15u32 => Some(SuccessfulProcedure::UeContextModification),
            16u32 => Some(SuccessfulProcedure::UeContextModificationIndication),
            17u32 => Some(SuccessfulProcedure::UeContextRelease),
            18u32 => Some(SuccessfulProcedure::UeContextResume),
            19u32 => Some(SuccessfulProcedure::UeContextSuspend),
            20u32 => Some(SuccessfulProcedure::UeRadioCapabilityIdMapping),
            21u32 => Some(SuccessfulProcedure::UeRadioCapabilityMatch),
            22u32 => Some(SuccessfulProcedure::WriteReplaceWarning),
            _ => None,
        }
    }

    /// Executable form of [`Self::spec_number`].
    pub fn number(&self) -> (r: u32)
        ensures
            r == self.spec_number(),
    {
        match self {
            SuccessfulProcedure::ERabModificationIndication => 1,
            SuccessfulProcedure::ERabModify => 2,
            SuccessfulProcedure::ERabRelease => 3,
            SuccessfulProcedure::ERabSetup => 4,
            SuccessfulProcedure::EnbConfigurationUpdate => 5,
            SuccessfulProcedure::HandoverCancel => 6,
            SuccessfulProcedure::HandoverPreparation => 7,
            SuccessfulProcedure::HandoverResourceAllocation => 8,
            SuccessfulProcedure::InitialContextSetup => 9,
            SuccessfulProcedure::Kill => 10,
            SuccessfulProcedure::MmeConfigurationUpdate => 11,
            SuccessfulProcedure::PathSwitchRequest => 12,
            SuccessfulProcedure::Reset => 13,
            SuccessfulProcedure::S1Setup => 14,
            SuccessfulProcedure::UeContextModification => 15,
            SuccessfulProcedure::UeContextModificationIndication => 16,
            SuccessfulProcedure::UeContextRelease => 17,
            SuccessfulProcedure::UeContextResume => 18,
            SuccessfulProcedure::UeContextSuspend => 19,
            SuccessfulProcedure::UeRadioCapabilityIdMapping => 20,
            SuccessfulProcedure::UeRadioCapabilityMatch => 21,
            SuccessfulProcedure::WriteReplaceWarning => 22,
        }
    }

    /// Every procedure has a number in `1..=22`, and the number gives the
    /// procedure back.
    pub proof fn lemma_number_inverse(self)
        ensures
            1 <= self.spec_number() <= 22,
            SuccessfulProcedure::from_number(self.spec_number()) == Some(self),
    {
    }
}

/// Procedure carried by an S1AP UnsuccessfulOutcome.
#[derive(Clone, Copy, Debug, PartialEq, Eq, Structural)]
pub enum FailureProcedure {
    EnbConfigurationUpdate,
    HandoverPreparation,
    HandoverResourceAllocation,
    InitialContextSetup,
    MmeConfigurationUpdate,
    PathSwitchRequest,
    S1Setup,
    UeContextModification,
    UeContextResume,
}

/// The S1AP Cause: a group and the value of the group's enumeration.
#[derive(Clone, Copy, Debug, PartialEq, Eq, Structural)]
pub enum Cause {
    RadioNetwork(u8),
    Transport(u8),
    Nas(u8),
    Protocol(u8),
    Misc(u8),
}

/// One protocol IE of a failure message: a Cause, or any other IE.
#[derive(Clone, Copy, Debug, PartialEq, Eq, Structural)]
pub enum FailureIe {
    Cause(Cause),
    Other,
}

/// An S1AP UnsuccessfulOutcome: its procedure and its protocol IEs in order.
#[derive(Clone, Debug, PartialEq, Eq)]
pub struct UnsuccessfulOutcome {
    pub procedure: FailureProcedure,
    pub protocol_ies: Vec<FailureIe>,
}

/// A decoded S1AP-PDU, as far as the response code reads it.
#[derive(Clone, Debug, PartialEq, Eq)]
pub enum S1apPdu {
    InitiatingMessage(InitiatingProcedure),
    SuccessfulOutcome(SuccessfulProcedure),
    UnsuccessfulOutcome(UnsuccessfulOutcome),
}

} // verus!
