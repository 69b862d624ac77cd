use vstd::prelude::*;

use crate::pdu::{
    Cause, FailureIe, FailureProcedure, InitiatingProcedure, S1apPdu, SuccessfulProcedure,
    UnsuccessfulOutcome,
};

verus! {

/// Message class of an InitiatingMessage (bit 14 set).
pub const S1AP_MSG_INITIATING: u32 = 16384;

/// Message class of a SuccessfulOutcome (bit 15 set).
pub const S1AP_MSG_SUCCESS: u32 = 32768;

/// Response category of an eNB Configuration Update failure (3 in bits 11 and up).
pub const S1AP_RESP_CATEGORY_ENB_CONFIG_UPDATE: u32 = 6144;

/// Response category of a Handover Preparation failure (4 in bits 11 and up).
pub const S1AP_RESP_CATEGORY_HANDOVER_PREP: u32 = 8192;

/// Response category of an Initial Context Setup failure (5 in bits 11 and up).
pub const S1AP_RESP_CATEGORY_INIT_CTX_SETUP: u32 = 10240;

/// Response category of a UE Context Resume failure (6 in bits 11 and up).
pub const S1AP_RESP_CATEGORY_UE_CONTEXT_RESUME: u32 = 12288;

/// Response category of a UE Context Modification failure (7 in bits 11 and up).
pub const S1AP_RESP_CATEGORY_UE_CONTEXT_MODIFICATION: u32 = 14336;

/// Response category of an MME Configuration Update failure (8 in bits 11 and up).
pub const S1AP_RESP_CATEGORY_MME_CONFIGURATION_UPDATE: u32 = 16384;

/// Response category of a Path Switch Request failure (9 in bits 11 and up).
pub const S1AP_RESP_CATEGORY_PATH_SWITCH_REQ: u32 = 18432;

/// Response category of an S1 Setup failure (10 in bits 11 and up).
pub const S1AP_RESP_CATEGORY_S1_SETUP: u32 = 20480;

/// Response category of a Handover Resource Allocation failure (11 in bits 11 and up).
pub const S1AP_RESP_CATEGORY_HANDOVER: u32 = 22528;

/// Cause group RadioNetwork (1 in bits 8 and up).
pub const CODE_CATEGORY_RADIO_NETWORK: u32 = 256;

/// Cause group Transport (2 in bits 8 and up).
pub const CODE_CATEGORY_TRANSPORT: u32 = 512;

/// Cause group NAS (3 in bits 8 and up).
pub const CODE_CATEGORY_NAS: u32 = 768;

/// Cause group Protocol (4 in bits 8 and up).
pub const CODE_CATEGORY_PROTOCOL: u32 = 1024;

/// Cause group Misc (5 in bits 8 and up).
pub const CODE_CATEGORY_MISC: u32 = 1280;

/// Marks a failure message that carries no Cause IE (6 in bits 8 and up).
pub const CODE_CATEGORY_MISSING: u32 = 1536;

/// The code that stands for "no decoded message".
pub const S1AP_NO_RESPONSE: u32 = 0;

/// The response category of a failure procedure.
pub open spec fn failure_category(p: FailureProcedure) -> u32 {
    match p {
        FailureProcedure::EnbConfigurationUpdate => S1AP_RESP_CATEGORY_ENB_CONFIG_UPDATE,
        FailureProcedure::HandoverPreparation => S1AP_RESP_CATEGORY_HANDOVER_PREP,
        FailureProcedure::HandoverResourceAllocation => S1AP_RESP_CATEGORY_HANDOVER,
        FailureProcedure::InitialContextSetup => S1AP_RESP_CATEGORY_INIT_CTX_SETUP,
        FailureProcedure::MmeConfigurationUpdate => S1AP_RESP_CATEGORY_MME_CONFIGURATION_UPDATE,
        FailureProcedure::PathSwitchRequest => S1AP_RESP_CATEGORY_PATH_SWITCH_REQ,
        FailureProcedure::S1Setup => S1AP_RESP_CATEGORY_S1_SETUP,
        FailureProcedure::UeContextModification => S1AP_RESP_CATEGORY_UE_CONTEXT_MODIFICATION,
        FailureProcedure::UeContextResume => S1AP_RESP_CATEGORY_UE_CONTEXT_RESUME,
    }
}

/// The group offset of a cause.
pub open spec fn cause_group(c: Cause) -> u32 {
    match c {
        Cause::RadioNetwork(_) => CODE_CATEGORY_RADIO_NETWORK,
        Cause::Transport(_) => CODE_CATEGORY_TRANSPORT,
        Cause::Nas(_) => CODE_CATEGORY_NAS,
        Cause::Protocol(_) => CODE_CATEGORY_PROTOCOL,
        Cause::Misc(_) => CODE_CATEGORY_MISC,
    }
}

/// The enumeration value of a cause, whatever its group.
pub open spec fn cause_value(c: Cause) -> u8 {
    match c {
        Cause::RadioNetwork(v) => v,
        Cause::Transport(v) => v,
        Cause::Nas(v) => v,
        Cause::Protocol(v) => v,
        Cause::Misc(v) => v,
    }
}

/// What a cause adds to the category: for an eNB Configuration Update failure
/// the group offset and the value, for every other failure the value alone.
pub open spec fn cause_part(p: FailureProcedure, c: Cause) -> nat {
    if p == FailureProcedure::EnbConfigurationUpdate {
        (cause_group(c) + cause_value(c)) as nat
    } else {
        cause_value(c) as nat
    }
}

/// The first Cause among a failure's protocol IEs, if there is one.
pub open spec fn first_cause(ies: Seq<FailureIe>) -> Option<Cause>
    decreases ies.len(),
{
    if ies.len() == 0 {
        None
    } else {
        match ies[0] {
            FailureIe::Cause(c) => Some(c),
            FailureIe::Other => first_cause(ies.drop_first()),
        }
    }
}

/// The response code of a failure: its category, plus the part of its first
/// cause, or plus the "missing" marker where it carries no cause.
pub open spec fn failure_code(p: FailureProcedure, ies: Seq<FailureIe>) -> nat {
    match first_cause(ies) {
        Some(c) => (failure_category(p) + cause_part(p, c)) as nat,
        None => (failure_category(p) + CODE_CATEGORY_MISSING) as nat,
    }
}

/// The response code of a decoded S1AP-PDU.
pub open spec fn pdu_code(pdu: S1apPdu) -> nat {
    match pdu {
        S1apPdu::InitiatingMessage(p) => (S1AP_MSG_INITIATING + p.spec_number()) as nat,
        S1apPdu::SuccessfulOutcome(p) => (S1AP_MSG_SUCCESS + p.spec_number()) as nat,
        S1apPdu::UnsuccessfulOutcome(o) => failure_code(o.procedure, o.protocol_ies@),
    }
}

fn category_of(p: FailureProcedure) -> (r: u32)
    ensures
        r == failure_category(p),
{
    match p {
        FailureProcedure::EnbConfigurationUpdate => S1AP_RESP_CATEGORY_ENB_CONFIG_UPDATE,
        FailureProcedure::HandoverPreparation => S1AP_RESP_CATEGORY_HANDOVER_PREP,
        FailureProcedure::HandoverResourceAllocation => S1AP_RESP_CATEGORY_HANDOVER,
        FailureProcedure::InitialContextSetup => S1AP_RESP_CATEGORY_INIT_CTX_SETUP,
        FailureProcedure::MmeConfigurationUpdate => S1AP_RESP_CATEGORY_MME_CONFIGURATION_UPDATE,
        FailureProcedure::PathSwitchRequest => S1AP_RESP_CATEGORY_PATH_SWITCH_REQ,
        FailureProcedure::S1Setup => S1AP_RESP_CATEGORY_S1_SETUP,
        FailureProcedure::UeContextModification => S1AP_RESP_CATEGORY_UE_CONTEXT_MODIFICATION,
        FailureProcedure::UeContextResume => S1AP_RESP_CATEGORY_UE_CONTEXT_RESUME,
    }
}

fn cause_code(p: FailureProcedure, c: Cause) -> (r: u32)
    ensures
        r == cause_part(p, c),
        r < CODE_CATEGORY_MISSING,
{
    let grouped = p == FailureProcedure::EnbConfigurationUpdate;
    match c {
        Cause::RadioNetwork(v) => if grouped { CODE_CATEGORY_RADIO_NETWORK + v as u32 } else { v as u32 },
        Cause::Transport(v) => if grouped { CODE_CATEGORY_TRANSPORT + v as u32 } else { v as u32 },
        Cause::Nas(v) => if grouped { CODE_CATEGORY_NAS + v as u32 } else { v as u32 },
        Cause::Protocol(v) => if grouped { CODE_CATEGORY_PROTOCOL + v as u32 } else { v as u32 },
        Cause::Misc(v) => if grouped { CODE_CATEGORY_MISC + v as u32 } else { v as u32 },
    }
}

/// Classifies a failure: the category of its procedure plus the code of the
/// first Cause IE, or plus `CODE_CATEGORY_MISSING` when no IE is a Cause.
pub fn failure_response_code(outcome: &UnsuccessfulOutcome) -> (r: u32)
    ensures
        r == failure_code(outcome.procedure, outcome.protocol_ies@),
{
    let ies = &outcome.protocol_ies;
    let category = category_of(outcome.procedure);
    let n = ies.len();
    let mut i: usize = 0;
    assert(ies@.subrange(0, n as int) =~= ies@);
    while i < n
        invariant
            n == ies@.len(),
            0 <= i <= n,
            category == failure_category(outcome.procedure),
            ies@ == outcome.protocol_ies@,
            first_cause(ies@) == first_cause(ies@.subrange(i as int, n as int)),
        decreases n - i,
    {
        let ghost rest = ies@.subrange(i as int, n as int);
        assert(rest[0] == ies@[i as int]);
        match ies[i] {
            FailureIe::Cause(c) => {
                assert(first_cause(rest) == Some(c));
                return category + cause_code(outcome.procedure, c);
            },
            FailureIe::Other => {},
        }
        assert(rest.drop_first() =~= ies@.subrange(i + 1, n as int));
        i = i + 1;
    }
    assert(ies@.subrange(n as int, n as int) =~= Seq::<FailureIe>::empty());
    category + CODE_CATEGORY_MISSING
}

/// The response code of a decoded S1AP-PDU: the message class plus the
/// procedure's number for initiating messages and successful outcomes, and the
/// failure classification for unsuccessful outcomes.
pub fn response_code(pdu: &S1apPdu) -> (r: u32)
    ensures
        r == pdu_code(*pdu),
{
    match pdu {
        S1apPdu::InitiatingMessage(p) => {
            proof { p.lemma_number_inverse(); }
            S1AP_MSG_INITIATING + p.number()
        },
        S1apPdu::SuccessfulOutcome(p) => {
            proof { p.lemma_number_inverse(); }
            S1AP_MSG_SUCCESS + p.number()
        },
        S1apPdu::UnsuccessfulOutcome(o) => failure_response_code(o),
    }
}

/// The response code that the harness reports for an input of `in_len` bytes:
/// 0 when `in_len` is not positive or when the bytes did not decode as an
/// S1AP-PDU (`decoded` is `None`), else the code of the decoded PDU.
pub fn s1ap_response_code(in_len: isize, decoded: Option<&S1apPdu>) -> (r: u32)
    ensures
        in_len <= 0 ==> r == S1AP_NO_RESPONSE,
        in_len > 0 && decoded is None ==> r == S1AP_NO_RESPONSE,
        in_len > 0 && decoded is Some ==> r == pdu_code(*decoded.unwrap()),
{
    if in_len <= 0 {
        return S1AP_NO_RESPONSE;
    }
    match decoded {
        Some(pdu) => response_code(pdu),
        None => S1AP_NO_RESPONSE,
    }
}

/// A decoded message never gets the code 0, so 0 from the harness always
/// means that no message was decoded.
pub proof fn lemma_decoded_code_is_nonzero(pdu: S1apPdu)
    ensures
        pdu_code(pdu) != S1AP_NO_RESPONSE,
        pdu_code(pdu) <= u32::MAX,
{
    lemma_failure_code_splits_all(pdu);
}

/// The message class of a code: a code is at least `S1AP_MSG_SUCCESS` exactly
/// when it belongs to a successful outcome; initiating messages have codes just
/// above `S1AP_MSG_INITIATING`, and failures have codes below
/// `S1AP_RESP_CATEGORY_HANDOVER + 2048`.
pub proof fn lemma_message_class(pdu: S1apPdu)
    ensures
        pdu is SuccessfulOutcome <==> pdu_code(pdu) >= S1AP_MSG_SUCCESS,
        pdu is InitiatingMessage ==> S1AP_MSG_INITIATING < pdu_code(pdu) <= S1AP_MSG_INITIATING + 67,
        pdu is SuccessfulOutcome ==> S1AP_MSG_SUCCESS < pdu_code(pdu) <= S1AP_MSG_SUCCESS + 22,
        pdu is UnsuccessfulOutcome ==> S1AP_RESP_CATEGORY_ENB_CONFIG_UPDATE <= pdu_code(pdu) < S1AP_RESP_CATEGORY_HANDOVER + 2048,
{
    lemma_failure_code_splits_all(pdu);
}

proof fn lemma_failure_code_splits_all(pdu: S1apPdu)
    ensures
        pdu is InitiatingMessage ==> S1AP_MSG_INITIATING < pdu_code(pdu) <= S1AP_MSG_INITIATING + 67,
        pdu is SuccessfulOutcome ==> S1AP_MSG_SUCCESS < pdu_code(pdu) <= S1AP_MSG_SUCCESS + 22,
        pdu is UnsuccessfulOutcome ==> S1AP_RESP_CATEGORY_ENB_CONFIG_UPDATE <= pdu_code(pdu) < S1AP_RESP_CATEGORY_HANDOVER + 2048,
{
    match pdu {
        S1apPdu::InitiatingMessage(p) => p.lemma_number_inverse(),
        S1apPdu::SuccessfulOutcome(p) => p.lemma_number_inverse(),
        S1apPdu::UnsuccessfulOutcome(o) => lemma_failure_code_splits(o.procedure, o.protocol_ies@),
    }
}

/// A failure code splits into the category of the procedure (the code divided
/// by 2048) and the cause part (the code modulo 2048); the cause part is
/// `CODE_CATEGORY_MISSING` exactly when no protocol IE is a Cause.
pub proof fn lemma_failure_code_splits(p: FailureProcedure, ies: Seq<FailureIe>)
    ensures
        failure_code(p, ies) / 2048 == failure_category(p) / 2048,
        3 <= failure_code(p, ies) / 2048 <= 11,
        failure_code(p, ies) % 2048 == match first_cause(ies) {
            Some(c) => cause_part(p, c),
            None => CODE_CATEGORY_MISSING as nat,
        },
        (failure_code(p, ies) % 2048 == CODE_CATEGORY_MISSING) <==> first_cause(ies) is None,
{
    match first_cause(ies) {
        Some(c) => {
            assert(cause_part(p, c) < CODE_CATEGORY_MISSING);
        },
        None => {},
    }
}

/// For an eNB Configuration Update failure with a cause, the cause part of the
/// code splits further into the cause's group (divided by 256: 1 for
/// RadioNetwork up to 5 for Misc) and the cause's value (modulo 256).
pub proof fn lemma_enb_cause_splits(ies: Seq<FailureIe>, c: Cause)
    requires
        first_cause(ies) == Some(c),
    ensures
        (failure_code(FailureProcedure::EnbConfigurationUpdate, ies) % 2048) / 256 == cause_group(c) / 256,
        1 <= cause_group(c) / 256 <= 5,
        failure_code(FailureProcedure::EnbConfigurationUpdate, ies) % 256 == cause_value(c),
{
    lemma_failure_code_splits(FailureProcedure::EnbConfigurationUpdate, ies);
}

/// The first Cause is found wherever it stands: when the IE at position `i` is
/// the Cause `c` and every IE before it is another IE, the failure code is the
/// procedure's category plus the part of `c`.
pub proof fn lemma_failure_code_uses_first_cause(p: FailureProcedure, ies: Seq<FailureIe>, i: int, c: Cause)
    requires
        0 <= i < ies.len(),
        ies[i] == FailureIe::Cause(c),
        forall|k: int| 0 <= k < i ==> ies[k] == FailureIe::Other,
    ensures
        first_cause(ies) == Some(c),
        failure_code(p, ies) == failure_category(p) + cause_part(p, c),
    decreases i,
{
    if i > 0 {
        let rest = ies.drop_first();
        assert forall|k: int| 0 <= k < i - 1 implies rest[k] == FailureIe::Other by {
            assert(rest[k] == ies[k + 1]);
        }
        lemma_failure_code_uses_first_cause(p, rest, i - 1, c);
    }
}

/// The "missing" marker is reported exactly when no IE of the list, at any
/// position, is a Cause.
pub proof fn lemma_failure_code_missing_iff_no_cause(p: FailureProcedure, ies: Seq<FailureIe>)
    ensures
        (forall|k: int| 0 <= k < ies.len() ==> ies[k] == FailureIe::Other)
            <==> failure_code(p, ies) == failure_category(p) + CODE_CATEGORY_MISSING,
        (forall|k: int| 0 <= k < ies.len() ==> ies[k] == FailureIe::Other) <==> first_cause(ies) is None,
    decreases ies.len(),
{
    lemma_failure_code_splits(p, ies);
    if ies.len() > 0 {
        let rest = ies.drop_first();
        lemma_failure_code_missing_iff_no_cause(p, rest);
        if forall|k: int| 0 <= k < ies.len() ==> ies[k] == FailureIe::Other {
            assert forall|k: int| 0 <= k < rest.len() implies rest[k] == FailureIe::Other by {
                assert(rest[k] == ies[k + 1]);
            }
        } else {
            let k = choose|k: int| 0 <= k < ies.len() && ies[k] != FailureIe::Other;
            if ies[0] == FailureIe::Other {
                assert(rest[k - 1] == ies[k]);
            }
        }
    }
}

/// What `first_cause` finds is characterised by position: it is `Some(c)`
/// exactly when some IE is the Cause `c` and every IE before it is another IE.
pub proof fn lemma_first_cause_by_position(ies: Seq<FailureIe>, c: Cause)
    ensures
        first_cause(ies) == Some(c) <==> exists|i: int|
            0 <= i < ies.len() && ies[i] == FailureIe::Cause(c)
                && forall|k: int| 0 <= k < i ==> ies[k] == FailureIe::Other,
    decreases ies.len(),
{
    if ies.len() > 0 {
        let rest = ies.drop_first();
        lemma_first_cause_by_position(rest, c);
        if first_cause(ies) == Some(c) {
            if ies[0] == FailureIe::Cause(c) {
                assert(forall|k: int| 0 <= k < 0 ==> ies[k] == FailureIe::Other);
            } else {
                let j = choose|j: int|
                    0 <= j < rest.len() && rest[j] == FailureIe::Cause(c)
                        && forall|k: int| 0 <= k < j ==> rest[k] == FailureIe::Other;
                assert(ies[j + 1] == FailureIe::Cause(c));
                assert forall|k: int| 0 <= k < j + 1 implies ies[k] == FailureIe::Other by {
                    if k > 0 {
                        assert(ies[k] == rest[k - 1]);
                    }
                }
            }
        }
        if exists|i: int|
            0 <= i < ies.len() && ies[i] == FailureIe::Cause(c)
                && forall|k: int| 0 <= k < i ==> ies[k] == FailureIe::Other {
            let i = choose|i: int|
                0 <= i < ies.len() && ies[i] == FailureIe::Cause(c)
                    && forall|k: int| 0 <= k < i ==> ies[k] == FailureIe::Other;
            lemma_failure_code_uses_first_cause(FailureProcedure::S1Setup, ies, i, c);
        }
    }
}

/// The category of each failure procedure: its number times 2048, from 3 for
/// eNB Configuration Update up to 11 for Handover Resource Allocation.
pub proof fn lemma_failure_categories()
    ensures
        failure_category(FailureProcedure::EnbConfigurationUpdate) == 3 * 2048,
        failure_category(FailureProcedure::HandoverPreparation) == 4 * 2048,
        failure_category(FailureProcedure::InitialContextSetup) == 5 * 2048,
        failure_category(FailureProcedure::UeContextResume) == 6 * 2048,
        failure_category(FailureProcedure::UeContextModification) == 7 * 2048,
        failure_category(FailureProcedure::MmeConfigurationUpdate) == 8 * 2048,
        failure_category(FailureProcedure::PathSwitchRequest) == 9 * 2048,
        failure_category(FailureProcedure::S1Setup) == 10 * 2048,
        failure_category(FailureProcedure::HandoverResourceAllocation) == 11 * 2048,
{
}

/// The part a cause adds: for an eNB Configuration Update failure its group
/// times 256 (RadioNetwork 1, Transport 2, NAS 3, Protocol 4, Misc 5) plus its
/// value; for every other failure the value alone.
pub proof fn lemma_cause_parts(p: FailureProcedure, v: u8)
    ensures
        cause_part(FailureProcedure::EnbConfigurationUpdate, Cause::RadioNetwork(v)) == 1 * 256 + v,
        cause_part(FailureProcedure::EnbConfigurationUpdate, Cause::Transport(v)) == 2 * 256 + v,
        cause_part(FailureProcedure::EnbConfigurationUpdate, Cause::Nas(v)) == 3 * 256 + v,
        cause_part(FailureProcedure::EnbConfigurationUpdate, Cause::Protocol(v)) == 4 * 256 + v,
        cause_part(FailureProcedure::EnbConfigurationUpdate, Cause::Misc(v)) == 5 * 256 + v,
        p != FailureProcedure::EnbConfigurationUpdate ==> {
            &&& cause_part(p, Cause::RadioNetwork(v)) == v
            &&& cause_part(p, Cause::Transport(v)) == v
            &&& cause_part(p, Cause::Nas(v)) == v
            &&& cause_part(p, Cause::Protocol(v)) == v
            &&& cause_part(p, Cause::Misc(v)) == v
        },
{
}

/// The code of an initiating message is the initiating class (16384) plus the
/// procedure's number, and that number gives the procedure back.
pub proof fn lemma_initiating_code_numbering(p: InitiatingProcedure)
    ensures
        S1AP_MSG_INITIATING == 16384,
        pdu_code(S1apPdu::InitiatingMessage(p)) == S1AP_MSG_INITIATING + p.spec_number(),
        InitiatingProcedure::from_number((pdu_code(S1apPdu::InitiatingMessage(p)) - 16384) as u32) == Some(p),
{
    p.lemma_number_inverse();
}

/// The code of a successful outcome is the successful class (32768) plus the
/// procedure's number, and that number gives the procedure back.
pub proof fn lemma_successful_code_numbering(p: SuccessfulProcedure)
    ensures
        S1AP_MSG_SUCCESS == 32768,
        pdu_code(S1apPdu::SuccessfulOutcome(p)) == S1AP_MSG_SUCCESS + p.spec_number(),
        SuccessfulProcedure::from_number((pdu_code(S1apPdu::SuccessfulOutcome(p)) - 32768) as u32) == Some(p),
{
    p.lemma_number_inverse();
}

/// Two initiating messages get the same code only when they carry the same
/// procedure.
pub proof fn lemma_initiating_codes_identify_procedure(a: InitiatingProcedure, b: InitiatingProcedure)
    ensures
        pdu_code(S1apPdu::InitiatingMessage(a)) == pdu_code(S1apPdu::InitiatingMessage(b)) <==> a == b,
{
    a.lemma_number_inverse();
    b.lemma_number_inverse();
}

/// Two successful outcomes get the same code only when they carry the same
/// procedure.
pub proof fn lemma_successful_codes_identify_procedure(a: SuccessfulProcedure, b: SuccessfulProcedure)
    ensures
        pdu_code(S1apPdu::SuccessfulOutcome(a)) == pdu_code(S1apPdu::SuccessfulOutcome(b)) <==> a == b,
{
    a.lemma_number_inverse();
    b.lemma_number_inverse();
}

/// An initiating message and a failure whose category lies below
/// `S1AP_MSG_INITIATING` never share a code.
pub proof fn lemma_initiating_and_failure_codes_differ(
    a: InitiatingProcedure,
    outcome: UnsuccessfulOutcome,
)
    requires
        failure_category(outcome.procedure) < S1AP_MSG_INITIATING,
    ensures
        pdu_code(S1apPdu::InitiatingMessage(a)) != pdu_code(S1apPdu::UnsuccessfulOutcome(outcome)),
{
    a.lemma_number_inverse();
    lemma_failure_code_splits(outcome.procedure, outcome.protocol_ies@);
}

} // verus!
