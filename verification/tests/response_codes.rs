use s1ap_fuzz::{
    failure_response_code, response_code, s1ap_response_code, Cause, FailureIe,
    FailureProcedure, InitiatingProcedure, S1apPdu, SuccessfulProcedure, UnsuccessfulOutcome,
    CODE_CATEGORY_MISSING, S1AP_MSG_INITIATING, S1AP_MSG_SUCCESS, S1AP_NO_RESPONSE,
    S1AP_RESP_CATEGORY_ENB_CONFIG_UPDATE, S1AP_RESP_CATEGORY_HANDOVER,
    S1AP_RESP_CATEGORY_HANDOVER_PREP, S1AP_RESP_CATEGORY_MME_CONFIGURATION_UPDATE,
    S1AP_RESP_CATEGORY_S1_SETUP,
};

fn failure(procedure: FailureProcedure, ies: Vec<FailureIe>) -> S1apPdu {
    S1apPdu::UnsuccessfulOutcome(UnsuccessfulOutcome { procedure, protocol_ies: ies })
}

#[test]
fn initiating_codes_follow_the_numbering() {
    assert_eq!(response_code(&S1apPdu::InitiatingMessage(InitiatingProcedure::CellTrafficTrace)), 16385);
    assert_eq!(response_code(&S1apPdu::InitiatingMessage(InitiatingProcedure::PathSwitchRequest)), 16384 + 35);
    // The numbering skips 36.
    assert_eq!(response_code(&S1apPdu::InitiatingMessage(InitiatingProcedure::RerouteNasRequest)), 16384 + 37);
    assert_eq!(
        response_code(&S1apPdu::InitiatingMessage(InitiatingProcedure::UplinkUeAssociatedLppaTransport)),
        16384 + 67
    );
    assert_eq!(InitiatingProcedure::InitialUeMessage.number(), 64);
}

#[test]
fn successful_codes_follow_the_numbering() {
    assert_eq!(response_code(&S1apPdu::SuccessfulOutcome(SuccessfulProcedure::ERabModificationIndication)), 32769);
    assert_eq!(response_code(&S1apPdu::SuccessfulOutcome(SuccessfulProcedure::S1Setup)), 32768 + 14);
    assert_eq!(response_code(&S1apPdu::SuccessfulOutcome(SuccessfulProcedure::WriteReplaceWarning)), 32768 + 22);
    assert_eq!(SuccessfulProcedure::Kill.number(), 10);
}

#[test]
fn enb_configuration_failure_adds_the_cause_group() {
    let pdu = failure(
        FailureProcedure::EnbConfigurationUpdate,
        vec![FailureIe::Other, FailureIe::Cause(Cause::Nas(3)), FailureIe::Cause(Cause::Misc(1))],
    );
    assert_eq!(response_code(&pdu), 6144 + 768 + 3);
    let radio = failure(FailureProcedure::EnbConfigurationUpdate, vec![FailureIe::Cause(Cause::RadioNetwork(0))]);
    assert_eq!(response_code(&radio), S1AP_RESP_CATEGORY_ENB_CONFIG_UPDATE + 256);
    let misc = failure(FailureProcedure::EnbConfigurationUpdate, vec![FailureIe::Cause(Cause::Misc(255))]);
    assert_eq!(response_code(&misc), S1AP_RESP_CATEGORY_ENB_CONFIG_UPDATE + 1280 + 255);
}

#[test]
fn other_failures_add_the_cause_value_alone() {
    let pdu = failure(FailureProcedure::HandoverPreparation, vec![FailureIe::Cause(Cause::RadioNetwork(5))]);
    assert_eq!(response_code(&pdu), S1AP_RESP_CATEGORY_HANDOVER_PREP + 5);
    let pdu = failure(FailureProcedure::HandoverResourceAllocation, vec![FailureIe::Other, FailureIe::Cause(Cause::Protocol(7))]);
    assert_eq!(response_code(&pdu), S1AP_RESP_CATEGORY_HANDOVER + 7);
    let outcome = UnsuccessfulOutcome {
        procedure: FailureProcedure::UeContextResume,
        protocol_ies: vec![FailureIe::Cause(Cause::Transport(1))],
    };
    assert_eq!(failure_response_code(&outcome), 12288 + 1);
    let outcome = UnsuccessfulOutcome {
        procedure: FailureProcedure::UeContextModification,
        protocol_ies: vec![FailureIe::Cause(Cause::Nas(2))],
    };
    assert_eq!(failure_response_code(&outcome), 14336 + 2);
    let outcome = UnsuccessfulOutcome {
        procedure: FailureProcedure::InitialContextSetup,
        protocol_ies: vec![FailureIe::Cause(Cause::Misc(4))],
    };
    assert_eq!(failure_response_code(&outcome), 10240 + 4);
    let outcome = UnsuccessfulOutcome {
        procedure: FailureProcedure::PathSwitchRequest,
        protocol_ies: vec![FailureIe::Cause(Cause::Misc(4))],
    };
    assert_eq!(failure_response_code(&outcome), 18432 + 4);
}

#[test]
fn failure_without_cause_is_marked_missing() {
    let pdu = failure(FailureProcedure::S1Setup, vec![FailureIe::Other, FailureIe::Other]);
    assert_eq!(response_code(&pdu), S1AP_RESP_CATEGORY_S1_SETUP + CODE_CATEGORY_MISSING);
    let empty = failure(FailureProcedure::S1Setup, vec![]);
    assert_eq!(response_code(&empty), 22016);
}

#[test]
fn no_input_or_no_decode_gives_zero() {
    let pdu = S1apPdu::InitiatingMessage(InitiatingProcedure::Paging);
    assert_eq!(s1ap_response_code(0, Some(&pdu)), S1AP_NO_RESPONSE);
    assert_eq!(s1ap_response_code(-7, Some(&pdu)), 0);
    assert_eq!(s1ap_response_code(12, None), 0);
    assert_eq!(s1ap_response_code(12, Some(&pdu)), S1AP_MSG_INITIATING + 34);
}

#[test]
fn failure_code_splits_into_category_and_cause() {
    let pdu = failure(FailureProcedure::S1Setup, vec![FailureIe::Cause(Cause::Protocol(9))]);
    let code = response_code(&pdu);
    assert_eq!(code / 2048, 10);
    assert_eq!(code % 2048, 9);
    let enb = failure(FailureProcedure::EnbConfigurationUpdate, vec![FailureIe::Cause(Cause::Transport(17))]);
    let code = response_code(&enb);
    assert_eq!(code / 2048, 3);
    assert_eq!((code % 2048) / 256, 2);
    assert_eq!(code % 256, 17);
}

#[test]
fn successful_codes_stand_above_all_others() {
    let highest_failure = failure(FailureProcedure::HandoverResourceAllocation, vec![]);
    assert!(response_code(&highest_failure) < S1AP_MSG_SUCCESS);
    let highest_initiating = S1apPdu::InitiatingMessage(InitiatingProcedure::UplinkUeAssociatedLppaTransport);
    assert!(response_code(&highest_initiating) < S1AP_MSG_SUCCESS);
}

#[test]
fn mme_configuration_failure_can_share_an_initiating_code() {
    // Failure categories from MME Configuration Update on reach into the
    // initiating range: this pair shares a code.
    let failure_pdu = failure(FailureProcedure::MmeConfigurationUpdate, vec![FailureIe::Cause(Cause::RadioNetwork(1))]);
    let initiating = S1apPdu::InitiatingMessage(InitiatingProcedure::CellTrafficTrace);
    assert_eq!(S1AP_RESP_CATEGORY_MME_CONFIGURATION_UPDATE, S1AP_MSG_INITIATING);
    assert_eq!(response_code(&failure_pdu), response_code(&initiating));
}
