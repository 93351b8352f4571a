//! Parsing of the proving service's response body: a JSON array of
//! `{hex, txid}` records becomes a typed transaction list; anything else
//! is a parse failure. An empty array parses successfully — reporting it
//! is the submission protocol's decision, not the parser's.

use vstd::prelude::*;

verus! {

/// A transaction returned by the proving service: its raw hex encoding
/// and its transaction id.
#[derive(Debug)]
pub struct ProvedTransaction {
    pub hex: String,
    pub txid: String,
}

impl View for ProvedTransaction {
    type V = (Seq<char>, Seq<char>);

    open spec fn view(&self) -> (Seq<char>, Seq<char>) {
        (self.hex@, self.txid@)
    }
}

/// Response decoding failure.
#[derive(Debug)]
pub enum ParseError {
    /// The body is not a JSON array of string-to-string records, or a
    /// record lacks a required field; holds a description.
    Invalid(String),
}

/// What decoding the body as a JSON array of objects with string values
/// yields: `None` when the body is not such an array, else one entry per
/// record, each record as its (key, value) pairs sorted by key. Decoding
/// a fixed body always yields the same answer.
pub uninterp spec fn json_string_records(body: Seq<char>) -> Option<
    Seq<Seq<(Seq<char>, Seq<char>)>>,
>;

/// Relies on serde_json::from_str: decoding is a pure function of the
/// text, and an object decoded into an ordered map iterates sorted by key.
#[verifier::external_body]
fn decode_string_records(body: &str) -> (r: Option<Vec<Vec<(String, String)>>>)
    ensures
        r.deep_view() == json_string_records(body@),
{
    match serde_json::from_str::<Vec<std::collections::BTreeMap<String, String>>>(body) {
        Ok(records) => Some(records.into_iter().map(|m| m.into_iter().collect()).collect()),
        Err(_) => None,
    }
}

/// The position of the first pair in `rec` at or after `i` whose key is
/// `key`, or `rec.len()` if there is none.
pub open spec fn find_field(rec: Seq<(Seq<char>, Seq<char>)>, key: Seq<char>, i: int) -> int
    decreases rec.len() - i,
{
    if i < 0 || i >= rec.len() {
        rec.len() as int
    } else if rec[i].0 == key {
        i
    } else {
        find_field(rec, key, i + 1)
    }
}

/// The (hex, txid) a record denotes, or `None` when either field is
/// absent; fields beyond the two are ignored.
pub open spec fn record_tx(rec: Seq<(Seq<char>, Seq<char>)>) -> Option<(Seq<char>, Seq<char>)> {
    let h = find_field(rec, "hex"@, 0);
    let t = find_field(rec, "txid"@, 0);
    if h < rec.len() && t < rec.len() {
        Some((rec[h].1, rec[t].1))
    } else {
        None
    }
}

/// The transactions the records starting at `i` denote, or `None` when
/// some record lacks a field.
pub open spec fn txs_from(recs: Seq<Seq<(Seq<char>, Seq<char>)>>, i: int) -> Option<
    Seq<(Seq<char>, Seq<char>)>,
>
    decreases recs.len() - i,
{
    if i < 0 || i >= recs.len() {
        Some(Seq::empty())
    } else {
        match record_tx(recs[i]) {
            Option::None => Option::None,
            Option::Some(p) => match txs_from(recs, i + 1) {
                Option::None => Option::None,
                Option::Some(rest) => Some(seq![p] + rest),
            },
        }
    }
}

/// What parsing a whole body yields: `None` on any decode failure, else
/// the transaction list in the body's order.
pub open spec fn parse_result(body: Seq<char>) -> Option<Seq<(Seq<char>, Seq<char>)>> {
    match json_string_records(body) {
        Option::None => Option::None,
        Option::Some(recs) => txs_from(recs, 0),
    }
}

/// The value of the first pair in `rec` carrying `key`, if any.
fn find_value<'a>(rec: &'a Vec<(String, String)>, key: &str) -> (r: Option<&'a String>)
    ensures
        r is Some <==> find_field(rec.deep_view(), key@, 0) < rec.deep_view().len(),
        r is Some ==> r->0@ == rec.deep_view()[find_field(rec.deep_view(), key@, 0)].1,
{
    let ghost grec = rec.deep_view();
    let key_owned: String = key.to_owned();
    let n = rec.len();
    let mut k: usize = 0;
    while k < n
        invariant
            grec == rec.deep_view(),
            key_owned@ == key@,
            n == rec.len(),
            k <= n,
            find_field(grec, key@, 0) == find_field(grec, key@, k as int),
        decreases n - k,
    {
        assert(grec[k as int] == (rec@[k as int].0@, rec@[k as int].1@));
        if rec[k].0 == key_owned {
            return Some(&rec[k].1);
        }
        k += 1;
    }
    None
}

/// Decodes `body` as a JSON array of `{hex, txid}` records. Every decode
/// failure — non-JSON text, a non-array, non-string values, a missing
/// field — is `ParseError::Invalid`; an empty array is `Ok` and empty.
pub fn parse(body: &str) -> (r: Result<Vec<ProvedTransaction>, ParseError>)
    ensures
        r is Ok <==> parse_result(body@) is Some,
        r is Ok ==> r->Ok_0@.map_values(|t: ProvedTransaction| t@) == parse_result(body@)->0,
{
    match decode_string_records(body) {
        None => Err(ParseError::Invalid("response body is not a proof transaction array".to_owned())),
        Some(records) => {
            let ghost grecs = records.deep_view();
            let n = records.len();
            let mut out: Vec<ProvedTransaction> = Vec::new();
            let mut i: usize = 0;
            while i < n
                invariant
                    grecs == records.deep_view(),
                    json_string_records(body@) == Some(grecs),
                    n == records.len(),
                    i <= n,
                    txs_from(grecs, i as int) is Some ==> txs_from(grecs, 0) == Some(
                        out@.map_values(|t: ProvedTransaction| t@) + txs_from(grecs, i as int)->0,
                    ),
                    txs_from(grecs, i as int) is None ==> txs_from(grecs, 0) is None,
                decreases n - i,
            {
                let ghost out0 = out@.map_values(|t: ProvedTransaction| t@);
                assert(grecs[i as int] == records@[i as int].deep_view());
                let record = &records[i];
                let hex = find_value(record, "hex");
                let txid = find_value(record, "txid");
                match (hex, txid) {
                    (Some(hex), Some(txid)) => {
                        let tx = ProvedTransaction { hex: hex.clone(), txid: txid.clone() };
                        assert(record_tx(grecs[i as int]) == Some(tx@));
                        out.push(tx);
                        proof {
                            assert(out@.map_values(|t: ProvedTransaction| t@) =~= out0.push(
                                record_tx(grecs[i as int])->0,
                            ));
                            assert(txs_from(grecs, i as int) is Some ==> out0.push(
                                record_tx(grecs[i as int])->0,
                            ) + txs_from(grecs, i + 1)->0 =~= out0 + txs_from(
                                grecs,
                                i as int,
                            )->0);
                        }
                    },
                    _ => {
                        assert(record_tx(grecs[i as int]) is None);
                        assert(txs_from(grecs, i as int) is None);
                        return Err(ParseError::Invalid("proof transaction record lacks a field".to_owned()));
                    },
                }
                i += 1;
            }
            assert(txs_from(grecs, n as int) == Some(Seq::<(Seq<char>, Seq<char>)>::empty()));
            assert(out@.map_values(|t: ProvedTransaction| t@) =~= out@.map_values(
                |t: ProvedTransaction| t@,
            ) + Seq::empty());
            Ok(out)
        },
    }
}

} // verus!
