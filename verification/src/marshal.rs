//! The result marshaler: turns the textual payload of a foreign call into
//! the bridge's typed result model.
//!
//! A payload is an object `{ "charts": [...], "metrics": ... }`; each charts
//! element is an object with a non-empty string `type` and a `data` value.
//! Any violation fails the whole decode with a malformed-result error: a
//! partial chart set is never returned.

use vstd::prelude::*;

use crate::errors::{BridgeError, ErrorKind};
use crate::json::{lookup, parse_text, parsed_doc, JsonVal};

verus! {

/// One chart the analysis routine produced: its kind tag and its opaque
/// payload.
#[derive(Debug, PartialEq)]
pub struct ChartData {
    pub chart_type: String,
    pub data: JsonVal,
}

/// The typed result of one analysis run: the charts in the order the
/// payload declared them, and the opaque metrics value.
#[derive(Debug, PartialEq)]
pub struct AnalysisResult {
    pub charts: Vec<ChartData>,
    pub metrics: JsonVal,
}

/// The pair a charts element decodes to — its `type` tag (a non-empty
/// string) and its `data` payload — if the element is well formed.
pub open spec fn chart_pair_of(c: JsonVal) -> Option<(String, JsonVal)> {
    match c {
        JsonVal::Obj(fields) => match (lookup(fields@, "type"@), lookup(fields@, "data"@)) {
            (Some(JsonVal::Str(t)), Some(d)) => if t@.len() > 0 {
                Some((t, d))
            } else {
                None
            },
            _ => None,
        },
        _ => None,
    }
}

/// What decoding a parsed payload yields: the chart pairs in declared order
/// and the metrics value, or the message of the malformed-result error.
pub open spec fn decode_spec(v: JsonVal) -> Result<(Seq<(String, JsonVal)>, JsonVal), Seq<char>> {
    match v {
        JsonVal::Obj(entries) => match lookup(entries@, "charts"@) {
            Some(JsonVal::Arr(charts)) => if exists|i: int|
                0 <= i < charts@.len() && #[trigger] chart_pair_of(charts@[i]) is None {
                Err("malformed chart entry"@)
            } else {
                match lookup(entries@, "metrics"@) {
                    Some(m) => Ok(
                        (Seq::new(charts@.len(), |i: int| chart_pair_of(charts@[i])->Some_0), m),
                    ),
                    None => Err("missing metrics"@),
                }
            },
            Some(_) => Err("charts is not a sequence"@),
            None => Err("missing charts"@),
        },
        _ => Err("result is not an object"@),
    }
}

/// The typed result `res` carries exactly the given chart pairs, in order,
/// and the given metrics value.
pub open spec fn result_matches(
    res: AnalysisResult,
    pairs: Seq<(String, JsonVal)>,
    metrics: JsonVal,
) -> bool {
    &&& res.metrics == metrics
    &&& res.charts@.len() == pairs.len()
    &&& forall|i: int|
        0 <= i < pairs.len() ==> ((#[trigger] res.charts@[i]).chart_type, res.charts@[i].data)
            == pairs[i]
}

/// Every chart's type tag is non-empty.
pub open spec fn wf_charts(charts: Seq<ChartData>) -> bool {
    forall|i: int| 0 <= i < charts.len() ==> (#[trigger] charts[i]).chart_type@.len() > 0
}

/// Removes from `entries` the values under the first entries whose keys read
/// `key_a` and `key_b`.
#[verifier::loop_isolation(false)]
fn take_pair(entries: Vec<(String, JsonVal)>, key_a: &str, key_b: &str) -> (r: (
    Option<JsonVal>,
    Option<JsonVal>,
))
    requires
        key_a@ != key_b@,
    ensures
        r.0 == lookup(entries@, key_a@),
        r.1 == lookup(entries@, key_b@),
{
    let ghost orig = entries@;
    let ka = key_a.to_owned();
    let kb = key_b.to_owned();
    let mut rest = entries;
    let mut found_a: Option<JsonVal> = None;
    let mut found_b: Option<JsonVal> = None;
    while rest.len() > 0
        invariant
            match found_a {
                Some(x) => lookup(orig, key_a@) == Some(x),
                None => lookup(orig, key_a@) == lookup(rest@, key_a@),
            },
            match found_b {
                Some(x) => lookup(orig, key_b@) == Some(x),
                None => lookup(orig, key_b@) == lookup(rest@, key_b@),
            },
        decreases rest@.len(),
    {
        let ghost before = rest@;
        let (k, v) = rest.remove(0);
        proof {
            assert(rest@ =~= before.drop_first());
        }
        if found_a.is_none() && k == ka {
            found_a = Some(v);
        } else if found_b.is_none() && k == kb {
            found_b = Some(v);
        }
    }
    (found_a, found_b)
}

/// Decodes a parsed payload into the typed result.
///
/// The payload must be an object with a `charts` sequence and a `metrics`
/// value; each charts element must be an object with a non-empty string
/// `type` and a `data` value. Any violation fails the whole decode with a
/// malformed-result error carrying the message `decode_spec` gives.
#[verifier::loop_isolation(false)]
pub fn decode_value(v: JsonVal) -> (r: Result<AnalysisResult, BridgeError>)
    ensures
        decode_spec(v) matches Err(m) ==> (r matches Err(e) && e.kind
            == ErrorKind::MalformedResult && e.message@ == m),
        decode_spec(v) matches Ok(pm) ==> (r matches Ok(res) && result_matches(res, pm.0, pm.1)),
{
    let ghost gv = v;
    match v {
        JsonVal::Obj(entries) => {
            proof {
                reveal_strlit("charts");
                reveal_strlit("metrics");
                assert("charts"@.len() != "metrics"@.len());
            }
            let (charts_opt, metrics_opt) = take_pair(entries, "charts", "metrics");
            let charts_val = match charts_opt {
                Some(c) => c,
                None => {
                    return Err(
                        BridgeError::new(ErrorKind::MalformedResult, "missing charts".to_owned()),
                    );
                },
            };
            let items = match charts_val {
                JsonVal::Arr(items) => items,
                _ => {
                    return Err(
                        BridgeError::new(
                            ErrorKind::MalformedResult,
                            "charts is not a sequence".to_owned(),
                        ),
                    );
                },
            };
            let ghost gitems = items@;
            let mut rest = items;
            let mut charts: Vec<ChartData> = Vec::new();
            while rest.len() > 0
                invariant
                    charts@.len() + rest@.len() == gitems.len(),
                    rest@ == gitems.subrange(charts@.len() as int, gitems.len() as int),
                    forall|i: int|
                        0 <= i < charts@.len() ==> chart_pair_of(gitems[i]) == Some(
                            ((#[trigger] charts@[i]).chart_type, charts@[i].data),
                        ),
                decreases rest@.len(),
            {
                let ghost idx = charts@.len() as int;
                let c = rest.remove(0);
                proof {
                    assert(rest@ =~= gitems.subrange(idx + 1, gitems.len() as int));
                    assert(c == gitems[idx]);
                }
                let fields = match c {
                    JsonVal::Obj(fields) => fields,
                    _ => {
                        proof {
                            assert(chart_pair_of(gitems[idx]) is None);
                        }
                        return Err(
                            BridgeError::new(
                                ErrorKind::MalformedResult,
                                "malformed chart entry".to_owned(),
                            ),
                        );
                    },
                };
                proof {
                    reveal_strlit("type");
                    reveal_strlit("data");
                    assert("type"@[0] != "data"@[0]);
                }
                let (t_opt, d_opt) = take_pair(fields, "type", "data");
                let t = match t_opt {
                    Some(JsonVal::Str(t)) => t,
                    _ => {
                        proof {
                            assert(chart_pair_of(gitems[idx]) is None);
                        }
                        return Err(
                            BridgeError::new(
                                ErrorKind::MalformedResult,
                                "malformed chart entry".to_owned(),
                            ),
                        );
                    },
                };
                if t.as_str().is_empty() {
                    proof {
                        assert(chart_pair_of(gitems[idx]) is None);
                    }
                    return Err(
                        BridgeError::new(
                            ErrorKind::MalformedResult,
                            "malformed chart entry".to_owned(),
                        ),
                    );
                }
                let d = match d_opt {
                    Some(d) => d,
                    None => {
                        proof {
                            assert(chart_pair_of(gitems[idx]) is None);
                        }
                        return Err(
                            BridgeError::new(
                                ErrorKind::MalformedResult,
                                "malformed chart entry".to_owned(),
                            ),
                        );
                    },
                };
                charts.push(ChartData { chart_type: t, data: d });
            }
            proof {
                assert forall|i: int|
                    0 <= i < gitems.len() implies !(#[trigger] chart_pair_of(gitems[i]) is None) by {
                    assert(chart_pair_of(gitems[i]) == Some(
                        (charts@[i].chart_type, charts@[i].data),
                    ));
                }
            }
            let metrics = match metrics_opt {
                Some(m) => m,
                None => {
                    return Err(
                        BridgeError::new(ErrorKind::MalformedResult, "missing metrics".to_owned()),
                    );
                },
            };
            proof {
                let pairs = Seq::new(gitems.len(), |i: int| chart_pair_of(gitems[i])->Some_0);
                assert(decode_spec(gv) == Ok::<(Seq<(String, JsonVal)>, JsonVal), Seq<char>>(
                    (pairs, metrics),
                ));
                assert forall|i: int|
                    0 <= i < pairs.len() implies ((#[trigger] charts@[i]).chart_type,
                charts@[i].data) == pairs[i] by {
                    assert(chart_pair_of(gitems[i]) == Some(
                        (charts@[i].chart_type, charts@[i].data),
                    ));
                }
            }
            Ok(AnalysisResult { charts, metrics })
        },
        _ => Err(BridgeError::new(ErrorKind::MalformedResult, "result is not an object".to_owned())),
    }
}

/// Re-encodes a typed result as a payload value of the documented shape: an
/// object holding the charts, in order, under `charts` and the metrics value
/// under `metrics`.
#[verifier::loop_isolation(false)]
pub fn encode_value(result: AnalysisResult) -> (v: JsonVal)
    requires
        wf_charts(result.charts@),
    ensures
        encodes_result(v, result.charts@, result.metrics),
{
    let AnalysisResult { charts, metrics } = result;
    let ghost gcharts = charts@;
    let mut rest = charts;
    let mut items: Vec<JsonVal> = Vec::new();
    while rest.len() > 0
        invariant
            items@.len() + rest@.len() == gcharts.len(),
            rest@ == gcharts.subrange(items@.len() as int, gcharts.len() as int),
            forall|i: int|
                0 <= i < items@.len() ==> chart_pair_of(#[trigger] items@[i]) == Some(
                    (gcharts[i].chart_type, gcharts[i].data),
                ),
            forall|i: int|
                0 <= i < items@.len() ==> ((#[trigger] items@[i]) matches JsonVal::Obj(fs)
                    && fs@.len() == 2 && fs@[0].0@ == "type"@ && fs@[0].1 == JsonVal::Str(
                    gcharts[i].chart_type,
                ) && fs@[1].0@ == "data"@ && fs@[1].1 == gcharts[i].data),
        decreases rest@.len(),
    {
        let ghost idx = items@.len() as int;
        let c = rest.remove(0);
        proof {
            assert(rest@ =~= gcharts.subrange(idx + 1, gcharts.len() as int));
            assert(c == gcharts[idx]);
        }
        let ghost gc = c;
        let ChartData { chart_type, data } = c;
        let mut fields: Vec<(String, JsonVal)> = Vec::new();
        fields.push(("type".to_owned(), JsonVal::Str(chart_type)));
        fields.push(("data".to_owned(), data));
        proof {
            reveal_strlit("type");
            reveal_strlit("data");
            assert("type"@[0] != "data"@[0]);
            assert(gc.chart_type@.len() > 0);
            assert(lookup(fields@, "type"@) == Some(JsonVal::Str(gc.chart_type)));
            assert(lookup(fields@.drop_first(), "data"@) == Some(gc.data));
            assert(lookup(fields@, "data"@) == Some(gc.data));
            assert(chart_pair_of(JsonVal::Obj(fields)) == Some((gc.chart_type, gc.data)));
        }
        items.push(JsonVal::Obj(fields));
    }
    let mut entries: Vec<(String, JsonVal)> = Vec::new();
    entries.push(("charts".to_owned(), JsonVal::Arr(items)));
    entries.push(("metrics".to_owned(), metrics));
    JsonVal::Obj(entries)
}

/// The payload `v` is an encoding of a result carrying the given charts and
/// metrics: an object of exactly a `charts` sequence holding one well-formed
/// element per chart, in order, and the metrics value under `metrics`.
pub open spec fn encodes_result(v: JsonVal, charts: Seq<ChartData>, metrics: JsonVal) -> bool {
    &&& v matches JsonVal::Obj(entries)
    &&& entries@.len() == 2
    &&& entries@[0].0@ == "charts"@
    &&& entries@[1].0@ == "metrics"@
    &&& entries@[1].1 == metrics
    &&& entries@[0].1 matches JsonVal::Arr(items)
    &&& items@.len() == charts.len()
    &&& forall|i: int|
        0 <= i < charts.len() ==> chart_pair_of(#[trigger] items@[i]) == Some(
            (charts[i].chart_type, charts[i].data),
        )
    &&& forall|i: int|
        0 <= i < charts.len() ==> ((#[trigger] items@[i]) matches JsonVal::Obj(fs) && fs@.len()
            == 2 && fs@[0].0@ == "type"@ && fs@[0].1 == JsonVal::Str(charts[i].chart_type)
            && fs@[1].0@ == "data"@ && fs@[1].1 == charts[i].data)
}

/// Marshals the textual result of a foreign call: parses it as a structured
/// document and decodes that document into the typed result. A text that
/// does not parse, and a document of the wrong shape, both yield the
/// malformed-result error.
pub fn decode(text: &str) -> (r: Result<AnalysisResult, BridgeError>)
    ensures
        parsed_doc(text@) is None ==> (r matches Err(e) && e.kind == ErrorKind::MalformedResult),
        parsed_doc(text@) matches Some(v) ==> ((decode_spec(v) matches Err(m) ==> (r matches Err(
            e,
        ) && e.kind == ErrorKind::MalformedResult && e.message@ == m)) && (decode_spec(v) matches Ok(
            pm,
        ) ==> (r matches Ok(res) && result_matches(res, pm.0, pm.1)))),
{
    match parse_text(text) {
        Ok(v) => decode_value(v),
        Err(m) => Err(BridgeError::new(ErrorKind::MalformedResult, m)),
    }
}

/// Law: round trip on the chart list. Decoding a well-formed payload into a
/// typed result and re-encoding that result yields a payload that decodes
/// to the same chart pairs, in the same order, and the same metrics value.
pub proof fn lemma_round_trip(
    v: JsonVal,
    res: AnalysisResult,
    v2: JsonVal,
    pairs: Seq<(String, JsonVal)>,
    metrics: JsonVal,
)
    requires
        decode_spec(v) == Ok::<(Seq<(String, JsonVal)>, JsonVal), Seq<char>>((pairs, metrics)),
        result_matches(res, pairs, metrics),
        encodes_result(v2, res.charts@, res.metrics),
    ensures
        decode_spec(v2) == Ok::<(Seq<(String, JsonVal)>, JsonVal), Seq<char>>((pairs, metrics)),
{
    reveal_with_fuel(lookup, 3);
    reveal_strlit("charts");
    reveal_strlit("metrics");
    assert("charts"@.len() != "metrics"@.len());
    let entries2 = v2->Obj_0;
    assert(lookup(entries2@, "charts"@) == Some(entries2@[0].1));
    assert(lookup(entries2@, "metrics"@) == Some(entries2@[1].1));
    let items2 = entries2@[0].1->Arr_0;
    assert forall|i: int|
        0 <= i < items2@.len() implies !(#[trigger] chart_pair_of(items2@[i]) is None) by {
        assert(chart_pair_of(items2@[i]) == Some(
            ((res.charts@[i]).chart_type, res.charts@[i].data),
        ));
    }
    let s = Seq::new(items2@.len(), |i: int| chart_pair_of(items2@[i])->Some_0);
    assert(s =~= pairs) by {
        assert forall|i: int| 0 <= i < pairs.len() implies s[i] == pairs[i] by {
            assert(chart_pair_of(items2@[i]) == Some(
                ((res.charts@[i]).chart_type, res.charts@[i].data),
            ));
            assert(((#[trigger] res.charts@[i]).chart_type, res.charts@[i].data) == pairs[i]);
        }
    }
}

/// Law: a payload whose top-level object lacks the `charts` key decodes to
/// the malformed-result error carrying "missing charts"; it never decodes
/// to a result with an empty chart list, since absence is not emptiness.
pub proof fn lemma_missing_charts_rejected(entries: Vec<(String, JsonVal)>)
    requires
        lookup(entries@, "charts"@) is None,
    ensures
        decode_spec(JsonVal::Obj(entries)) == Err::<(Seq<(String, JsonVal)>, JsonVal), Seq<char>>(
            "missing charts"@,
        ),
{
}

/// Law: one malformed charts element fails the whole decode; no partial
/// result is ever returned.
pub proof fn lemma_bad_chart_entry_rejects(
    entries: Vec<(String, JsonVal)>,
    charts: Vec<JsonVal>,
    i: int,
)
    requires
        lookup(entries@, "charts"@) == Some(JsonVal::Arr(charts)),
        0 <= i < charts@.len(),
        chart_pair_of(charts@[i]) is None,
    ensures
        decode_spec(JsonVal::Obj(entries)) is Err,
{
    assert(0 <= i < charts@.len() && chart_pair_of(charts@[i]) is None);
}

} // verus!
