use vstd::prelude::*;

verus! {

/// The outcome of decoding a picked buffer against the external profile
/// schema: the decoded record's textual form on success, or the decode
/// error's textual form on failure. Decoding is a pure function of the byte
/// content, so the outcome is given a single name here and every contract
/// speaks of that name.
pub uninterp spec fn decode_outcome(buf: Seq<u8>) -> Result<Seq<char>, Seq<char>>;

/// Relies on prost::Message::decode_length_delimited for prost_types::Struct,
/// the external schema record: the outcome is a pure function of the input
/// bytes; an empty input holds no length prefix and is always rejected; the
/// textual forms of a decoded record (Debug) and of prost::DecodeError
/// (Display) are never empty.
#[verifier::external_body]
fn decode_profile_text(bytes: &Vec<u8>) -> (r: Result<String, String>)
    ensures
        r is Ok <==> decode_outcome(bytes@) is Ok,
        r matches Ok(t) ==> t@ == decode_outcome(bytes@)->Ok_0 && t@.len() > 0,
        r matches Err(e) ==> e@ == decode_outcome(bytes@)->Err_0 && e@.len() > 0,
        bytes@.len() == 0 ==> r is Err,
{
    match <prost_types::Struct as prost::Message>::decode_length_delimited(bytes.as_slice()) {
        Ok(record) => Ok(format!("{:#?}", record)),
        Err(err) => Err(format!("{}", err)),
    }
}

/// What the result pane shows for a picked buffer: the decoded record's text,
/// or the decode error's text.
pub enum PaneContent {
    Decoded(String),
    Failed(String),
}

impl PaneContent {
    /// The decode outcome that this content renders.
    pub open spec fn as_outcome(self) -> Result<Seq<char>, Seq<char>> {
        match self {
            PaneContent::Decoded(t) => Ok(t@),
            PaneContent::Failed(t) => Err(t@),
        }
    }

    pub fn is_decoded(&self) -> (r: bool)
        ensures
            r <==> self.as_outcome() is Ok,
    {
        match self {
            PaneContent::Decoded(_) => true,
            PaneContent::Failed(_) => false,
        }
    }

    /// The text shown in the pane, whichever way the decode went.
    pub fn text(&self) -> (t: &String)
        ensures
            self.as_outcome() matches Ok(s) ==> t@ == s,
            self.as_outcome() matches Err(s) ==> t@ == s,
    {
        match self {
            PaneContent::Decoded(t) => t,
            PaneContent::Failed(t) => t,
        }
    }
}

/// Decodes a picked buffer and renders the result as pane content. Every
/// valid encoding yields the record's non-empty text; every invalid one,
/// the empty buffer included, yields the error's non-empty text.
pub fn decode_pane_content(bytes: &Vec<u8>) -> (c: PaneContent)
    ensures
        c.as_outcome() == decode_outcome(bytes@),
        c matches PaneContent::Decoded(t) ==> t@.len() > 0,
        c matches PaneContent::Failed(t) ==> t@.len() > 0,
        c is Decoded <==> decode_outcome(bytes@) is Ok,
        bytes@.len() == 0 ==> c is Failed,
{
    match decode_profile_text(bytes) {
        Ok(t) => PaneContent::Decoded(t),
        Err(e) => PaneContent::Failed(e),
    }
}

} // verus!
