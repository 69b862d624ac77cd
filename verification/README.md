# s1ap_fuzz

The verified core of an S1AP fuzzing harness, written in Verus.

- `src/pdu.rs`: the summary of a decoded S1AP-PDU that the harness reads
  (message kind, procedure, and for failures the protocol IEs with their Cause),
  and the numbering of initiating and successful procedures.
- `src/response.rs`: the response codes: their constants, their specification
  (`pdu_code`), the classification (`response_code`, `s1ap_response_code`), and
  the laws that relate codes to messages.
- `src/codec.rs`: the APER buffers of `asn1_codecs` (`PerCodecData`), modelled by
  the bits they hold.
- `src/harness.rs`: the decisions of the three entry points: argument checks,
  error codes, the measured length of a re-encoding, and writing an encoding
  into the caller's buffer.
- `src/entropy.rs`: the byte source of `arbitrary` and the message count drawn
  from it.
- `app/`: the C entry points over raw buffers. They run the S1AP codec and the
  `Arbitrary` impls of the S1AP types (module `s1ap`, which this repository
  does not hold) and leave every decision to the library.
