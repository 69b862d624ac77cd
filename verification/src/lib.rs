//! Verified core of an S1AP fuzzing harness.
//!
//! The harness turns fuzzer bytes into S1AP messages, measures re-encoded
//! messages, and classifies decoded messages into compact numeric response
//! codes. This crate holds the decisions those entry points make, the
//! classification itself, and the handling of APER buffers, each with a
//! contract proved by Verus.
pub mod codec;
pub mod entropy;
pub mod harness;
pub mod pdu;
pub mod response;

pub use codec::{decode_buffer, encode_buffer};
pub use entropy::{entropy_source, ogs_message_count, MAX_MESSAGES};
pub use harness::{
    input_length, s1ap_arbitrary_to_structured, s1ap_msg_len, structured_lengths, Generation,
    S1AP_ERR_APER_ENCODING, S1AP_ERR_ARBITRARY_FAIL, S1AP_ERR_INVALID_ARG, S1AP_ERR_OUTPUT_TRUNC,
    S1AP_ERR_UNSPECIFIED,
};
pub use pdu::{
    Cause, FailureIe, FailureProcedure, InitiatingProcedure, S1apPdu, SuccessfulProcedure,
    UnsuccessfulOutcome,
};
pub use response::{
    failure_response_code, response_code, s1ap_response_code, CODE_CATEGORY_MISC,
    CODE_CATEGORY_MISSING, CODE_CATEGORY_NAS, CODE_CATEGORY_PROTOCOL,
    CODE_CATEGORY_RADIO_NETWORK, CODE_CATEGORY_TRANSPORT, S1AP_MSG_INITIATING, S1AP_MSG_SUCCESS,
    S1AP_NO_RESPONSE, S1AP_RESP_CATEGORY_ENB_CONFIG_UPDATE, S1AP_RESP_CATEGORY_HANDOVER,
    S1AP_RESP_CATEGORY_HANDOVER_PREP, S1AP_RESP_CATEGORY_INIT_CTX_SETUP,
    S1AP_RESP_CATEGORY_MME_CONFIGURATION_UPDATE, S1AP_RESP_CATEGORY_PATH_SWITCH_REQ,
    S1AP_RESP_CATEGORY_S1_SETUP, S1AP_RESP_CATEGORY_UE_CONTEXT_MODIFICATION,
    S1AP_RESP_CATEGORY_UE_CONTEXT_RESUME,
};
