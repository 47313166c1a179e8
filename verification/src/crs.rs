//! The CRS resolver: finds the well-known text of the coordinate reference
//! system among the variable length records of the header, and joins it with
//! the PROJJSON that a spatial reference library makes of it.

use crate::text::{
    clean, clean_text, contains, contains_text, is_ascii_space, is_clean, is_padding,
    lemma_clean_strips_surroundings, lemma_clean_twice,
};
use vstd::prelude::*;
use vstd::string::*;
use vstd::utf8::{decode_utf8, valid_utf8};

verus! {

/// A variable length record of the header, as far as the resolver reads it.
#[derive(Debug)]
pub struct Vlr {
    pub description: String,
    pub data: Vec<u8>,
}

/// The header of a point cloud, as far as the resolver reads it.
#[derive(Debug)]
pub struct Header {
    /// The variable length records, in file order.
    pub vlrs: Vec<Vlr>,
}

/// Why no CRS could be resolved although the header carries one.
#[derive(Clone, Copy, Debug, PartialEq, Eq, Structural)]
pub enum CrsDecodeError {
    /// The payload of a WKT record is not UTF-8.
    InvalidUtf8,
    /// The spatial reference library made no PROJJSON of the text.
    Rejected,
    /// What was handed in as PROJJSON is not JSON.
    InvalidProjjson,
}

impl CrsDecodeError {
    pub open spec fn message_spec(self) -> Seq<char> {
        match self {
            CrsDecodeError::InvalidUtf8 => "the WKT record is not valid UTF-8"@,
            CrsDecodeError::Rejected => "the spatial reference library rejected the WKT"@,
            CrsDecodeError::InvalidProjjson => "the PROJJSON of the WKT is not valid JSON"@,
        }
    }

    pub fn message(&self) -> (text: String)
        ensures
            text@ == self.message_spec(),
    {
        match self {
            CrsDecodeError::InvalidUtf8 => String::from_str("the WKT record is not valid UTF-8"),
            CrsDecodeError::Rejected => String::from_str(
                "the spatial reference library rejected the WKT",
            ),
            CrsDecodeError::InvalidProjjson => String::from_str(
                "the PROJJSON of the WKT is not valid JSON",
            ),
        }
    }
}

/// Whether `serde_json` reads `text` as one JSON value.
pub uninterp spec fn json_parses(text: Seq<char>) -> bool;

/// Parses `text` with `serde_json::from_str` into a `serde_json::Value` and
/// tells whether that succeeded. The contract names the outcome, which
/// depends on the text alone.
#[verifier::external_body]
fn is_json(text: &str) -> (parses: bool)
    ensures
        parses == json_parses(text@),
{
    serde_json::from_str::<serde_json::Value>(text).is_ok()
}

/// Decodes `bytes` with `String::from_utf8`. The contract claims that the
/// call succeeds exactly on valid UTF-8 and then yields the characters that
/// the bytes encode.
#[verifier::external_body]
fn string_from_utf8(bytes: Vec<u8>) -> (text: Option<String>)
    ensures
        text is Some <==> valid_utf8(bytes@),
        text matches Some(decoded) ==> decoded@ == decode_utf8(bytes@),
{
    String::from_utf8(bytes).ok()
}

/// The description of the record says that its payload is well-known text.
pub open spec fn is_wkt_record(vlr: Vlr) -> bool {
    contains_text(vlr.description@, "WKT"@)
}

/// The WKT records of the header, in file order.
pub open spec fn wkt_records(header: Header) -> Seq<Vlr> {
    header.vlrs@.filter(|vlr: Vlr| is_wkt_record(vlr))
}

/// The well-known text that a record carries: its payload decoded as UTF-8,
/// without the NUL padding and the white space behind it and without the
/// white space before it.
pub open spec fn wkt_text_of(vlr: Vlr) -> Seq<char> {
    clean_text(decode_utf8(vlr.data@))
}

/// The text of a record is what its payload holds between the white space
/// before it and the NUL padding and white space behind it: the surroundings
/// never change the text, and nothing of the text is changed.
pub proof fn lemma_wkt_text_without_surroundings(
    vlr: Vlr,
    lead: Seq<char>,
    body: Seq<char>,
    pad: Seq<char>,
)
    requires
        decode_utf8(vlr.data@) == lead + body + pad,
        forall|i: int| 0 <= i < lead.len() ==> is_ascii_space(#[trigger] lead[i]),
        forall|i: int| 0 <= i < pad.len() ==> is_padding(#[trigger] pad[i]),
        is_clean(body),
    ensures
        wkt_text_of(vlr) == body,
{
    lemma_clean_strips_surroundings(lead, body, pad);
}

/// The payload of every WKT record is UTF-8.
pub open spec fn payloads_decode(header: Header) -> bool {
    forall|k: int|
        0 <= k < wkt_records(header).len() ==> valid_utf8((#[trigger] wkt_records(header)[k]).data@)
}

/// Decodes and cleans the payload of a record.
pub fn decode_wkt(data: &Vec<u8>) -> (text: Result<String, CrsDecodeError>)
    ensures
        text is Ok <==> valid_utf8(data@),
        text matches Ok(wkt) ==> wkt@ == clean_text(decode_utf8(data@)) && is_clean(wkt@),
        text matches Err(e) ==> e == CrsDecodeError::InvalidUtf8,
{
    match string_from_utf8(data.clone()) {
        Some(decoded) => Ok(clean(decoded.as_str())),
        None => Err(CrsDecodeError::InvalidUtf8),
    }
}

/// The texts of the WKT records of the header, in file order. These are the
/// texts to hand to the spatial reference library. Fails exactly when the
/// payload of one of these records is not UTF-8.
pub fn wkt_texts(header: &Header) -> (found: Result<Vec<String>, CrsDecodeError>)
    ensures
        found is Ok <==> payloads_decode(*header),
        found matches Ok(texts) ==> {
            &&& texts@.len() == wkt_records(*header).len()
            &&& forall|k: int|
                0 <= k < texts@.len() ==> (#[trigger] texts@[k])@ == wkt_text_of(
                    wkt_records(*header)[k],
                )
        },
        found matches Err(e) ==> e == CrsDecodeError::InvalidUtf8,
{
    let mut texts: Vec<String> = Vec::new();
    let ghost is_wkt = |vlr: Vlr| is_wkt_record(vlr);
    let mut i: usize = 0;
    while i < header.vlrs.len()
        invariant
            i <= header.vlrs@.len(),
            is_wkt == |vlr: Vlr| is_wkt_record(vlr),
            texts@.len() == header.vlrs@.take(i as int).filter(is_wkt).len(),
            forall|k: int|
                0 <= k < texts@.len() ==> {
                    &&& valid_utf8((#[trigger] header.vlrs@.take(i as int).filter(is_wkt)[k]).data@)
                    &&& texts@[k]@ == wkt_text_of(header.vlrs@.take(i as int).filter(is_wkt)[k])
                },
        decreases header.vlrs@.len() - i,
    {
        let vlr = &header.vlrs[i];
        let ghost before = header.vlrs@.take(i as int);
        proof {
            reveal(Seq::filter);
            assert(header.vlrs@.take(i + 1).drop_last() =~= before);
        }
        if contains(vlr.description.as_str(), "WKT") {
            match decode_wkt(&vlr.data) {
                Ok(text) => {
                    texts.push(text);
                },
                Err(e) => {
                    proof {
                        let head = header.vlrs@.take(i + 1);
                        let tail = header.vlrs@.skip(i + 1);
                        assert(header.vlrs@ =~= head + tail);
                        Seq::filter_distributes_over_add(head, tail, is_wkt);
                        let at = before.filter(is_wkt).len() as int;
                        assert(wkt_records(*header)[at] == *vlr);
                    }
                    return Err(e);
                },
            }
        }
        i += 1;
    }
    assert(header.vlrs@.take(i as int) =~= header.vlrs@);
    Ok(texts)
}

/// A CRS in two forms: as well-known text free of padding, and as PROJJSON.
pub struct CrsText {
    pub wkt: Seq<char>,
    pub projjson: Seq<char>,
}

/// The CRS of the point cloud in two forms: as well-known text, and as the
/// PROJJSON that the spatial reference library made of it.
#[derive(Debug)]
pub struct WKTStringTransform {
    wkt_str: String,
    proj_str: String,
}

impl View for WKTStringTransform {
    type V = CrsText;

    closed spec fn view(&self) -> CrsText {
        CrsText { wkt: self.wkt_str@, projjson: self.proj_str@ }
    }
}

/// The two texts of a CRS, if there is one.
pub open spec fn crs_view(crs: Option<WKTStringTransform>) -> Option<CrsText> {
    match crs {
        Some(transform) => Some(transform@),
        None => None,
    }
}

impl WKTStringTransform {
    #[verifier::type_invariant]
    spec fn valid(&self) -> bool {
        &&& is_clean(self.wkt_str@)
        &&& json_parses(self.proj_str@)
    }

    /// Joins a well-known text with its PROJJSON. The text is held without
    /// the white space before it and without the NUL padding and white space
    /// behind it; nothing inside it is changed. The PROJJSON is held as
    /// given. Fails exactly when the PROJJSON is not JSON.
    pub fn new(wkt_str: String, proj_str: String) -> (made: Result<WKTStringTransform, CrsDecodeError>)
        ensures
            made is Ok <==> json_parses(proj_str@),
            made matches Ok(transform) ==> transform@ == (CrsText {
                wkt: clean_text(wkt_str@),
                projjson: proj_str@,
            }),
            made matches Err(e) ==> e == CrsDecodeError::InvalidProjjson,
    {
        if is_json(proj_str.as_str()) {
            Ok(WKTStringTransform { wkt_str: clean(wkt_str.as_str()), proj_str })
        } else {
            Err(CrsDecodeError::InvalidProjjson)
        }
    }

    /// The well-known text: always there, and free of padding.
    pub fn extract_wkt(&self) -> (text: Option<String>)
        ensures
            text matches Some(wkt) && wkt@ == self@.wkt && is_clean(wkt@),
    {
        proof {
            use_type_invariant(self);
        }
        Some(self.wkt_str.clone())
    }

    /// The PROJJSON text, which is JSON.
    pub fn extract_projjson(&self) -> (text: Option<String>)
        ensures
            text matches Some(json) && json@ == self@.projjson && json_parses(json@),
    {
        proof {
            use_type_invariant(self);
        }
        Some(self.proj_str.clone())
    }
}

/// What stands in the way of using one answer of the spatial reference
/// library: it made no PROJJSON, or what it made is not JSON.
pub open spec fn conversion_failure(projection: Option<String>) -> Option<CrsDecodeError> {
    match projection {
        None => Some(CrsDecodeError::Rejected),
        Some(text) => if json_parses(text@) {
            None
        } else {
            Some(CrsDecodeError::InvalidProjjson)
        },
    }
}

/// The failure of the first among the answers to the first `count` texts
/// that cannot be used. A text without an answer counts as rejected.
pub open spec fn first_failure(projections: Seq<Option<String>>, count: nat) -> Option<
    CrsDecodeError,
>
    decreases count,
{
    if count == 0 {
        None
    } else {
        match first_failure(projections, (count - 1) as nat) {
            Some(e) => Some(e),
            None => if count - 1 < projections.len() {
                conversion_failure(projections[count - 1])
            } else {
                Some(CrsDecodeError::Rejected)
            },
        }
    }
}

/// A failure among the first answers is the first failure however many
/// answers are looked at.
pub proof fn lemma_first_failure_stays(projections: Seq<Option<String>>, count: nat, more: nat)
    requires
        count <= more,
        first_failure(projections, count) is Some,
    ensures
        first_failure(projections, more) == first_failure(projections, count),
    decreases more,
{
    if count < more {
        lemma_first_failure_stays(projections, count, (more - 1) as nat);
    }
}

/// The CRS that a header resolves to, given the answers of the spatial
/// reference library to the texts of its WKT records:
/// - an error if a payload is not UTF-8, or else if an answer cannot be used;
/// - none if the header has no WKT record;
/// - else the text of the last WKT record with the answer to it.
pub open spec fn resolved(header: Header, projections: Seq<Option<String>>) -> Result<
    Option<CrsText>,
    CrsDecodeError,
> {
    let records = wkt_records(header);
    if !payloads_decode(header) {
        Err(CrsDecodeError::InvalidUtf8)
    } else if first_failure(projections, records.len()) is Some {
        Err(first_failure(projections, records.len())->0)
    } else if records.len() == 0 {
        Ok(None)
    } else {
        Ok(
            Some(
                CrsText {
                    wkt: wkt_text_of(records.last()),
                    projjson: projections[records.len() - 1]->0@,
                },
            ),
        )
    }
}

/// A header without WKT record resolves to no CRS, whatever the spatial
/// reference library is said to have answered.
pub proof fn lemma_no_wkt_record_no_crs(header: Header, projections: Seq<Option<String>>)
    requires
        wkt_records(header).len() == 0,
    ensures
        resolved(header, projections) == Ok::<Option<CrsText>, CrsDecodeError>(None),
{
}

/// Where the payloads of the WKT records decode and every answer of the
/// spatial reference library can be used, the header resolves to the cleaned
/// text of its last WKT record, verbatim, with the answer to that text.
pub proof fn lemma_last_wkt_record_wins(header: Header, projections: Seq<Option<String>>)
    requires
        wkt_records(header).len() > 0,
        payloads_decode(header),
        projections.len() >= wkt_records(header).len(),
        forall|k: int|
            0 <= k < wkt_records(header).len() ==> conversion_failure(#[trigger] projections[k])
                is None,
    ensures
        resolved(header, projections) == Ok::<Option<CrsText>, CrsDecodeError>(
            Some(
                CrsText {
                    wkt: clean_text(decode_utf8(wkt_records(header).last().data@)),
                    projjson: projections[wkt_records(header).len() - 1]->0@,
                },
            ),
        ),
{
    lemma_no_failure(projections, wkt_records(header).len());
}

/// Answers that can all be used hold no failure.
proof fn lemma_no_failure(projections: Seq<Option<String>>, count: nat)
    requires
        count <= projections.len(),
        forall|k: int|
            0 <= k < count ==> conversion_failure(#[trigger] projections[k]) is None,
    ensures
        first_failure(projections, count) is None,
    decreases count,
{
    if count > 0 {
        lemma_no_failure(projections, (count - 1) as nat);
    }
}

/// Resolves the CRS of the header. `projections` holds, for each text of
/// [`wkt_texts`] in order, the PROJJSON that the spatial reference library
/// made of it, or none where it made none. Every WKT record is examined, and
/// the last one wins.
pub fn resolve(header: &Header, projections: &Vec<Option<String>>) -> (found: Result<
    Option<WKTStringTransform>,
    CrsDecodeError,
>)
    ensures
        match found {
            Ok(crs) => resolved(*header, projections@) == Ok::<Option<CrsText>, CrsDecodeError>(
                crs_view(crs),
            ),
            Err(e) => resolved(*header, projections@) == Err::<Option<CrsText>, CrsDecodeError>(e),
        },
{
    let texts = match wkt_texts(header) {
        Ok(texts) => texts,
        Err(e) => {
            return Err(e);
        },
    };
    let mut latest: Option<WKTStringTransform> = None;
    let mut k: usize = 0;
    while k < texts.len()
        invariant
            k <= texts@.len(),
            texts@.len() == wkt_records(*header).len(),
            forall|j: int|
                0 <= j < texts@.len() ==> (#[trigger] texts@[j])@ == wkt_text_of(
                    wkt_records(*header)[j],
                ),
            payloads_decode(*header),
            first_failure(projections@, k as nat) is None,
            k == 0 ==> latest is None,
            k > 0 ==> k <= projections@.len() && projections@[k - 1] is Some && (latest matches Some(
                transform,
            ) && transform@ == (CrsText {
                wkt: texts@[k - 1]@,
                projjson: projections@[k - 1]->0@,
            })),
        decreases texts@.len() - k,
    {
        proof {
            if first_failure(projections@, (k + 1) as nat) is Some {
                lemma_first_failure_stays(projections@, (k + 1) as nat, texts@.len());
            }
            // The text is cleaned already, so the transform holds it as it is.
            lemma_clean_twice(decode_utf8(wkt_records(*header)[k as int].data@));
        }
        if k >= projections.len() {
            return Err(CrsDecodeError::Rejected);
        }
        match &projections[k] {
            None => {
                return Err(CrsDecodeError::Rejected);
            },
            Some(projection) => {
                match WKTStringTransform::new(texts[k].clone(), projection.clone()) {
                    Ok(transform) => {
                        latest = Some(transform);
                    },
                    Err(e) => {
                        return Err(e);
                    },
                }
            },
        }
        k += 1;
    }
    Ok(latest)
}

} // verus!
