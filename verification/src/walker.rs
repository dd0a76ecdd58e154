use vstd::prelude::*;
use crate::errors::{DecodeError, ErrModel, ErrorKind};
use crate::errors::{err_at, err_at_key, err_root};
use crate::formats::{parse_identifier, uuid_of};
use crate::record::Inner;
use crate::value::WireValue;

verus! {

/// Closing check of a walk: the float slot is demanded first, then the
/// identifier slot; only with both set is the record assembled.
pub open spec fn finish_spec(f: Option<u64>, u: Option<u128>) -> Result<Inner, ErrModel> {
    match (f, u) {
        (Some(fb), Some(uv)) => Ok(Inner { f_bits: fb, u: uv }),
        (None, _) => Err(ErrModel { kind: ErrorKind::MissingField, path: seq!["f"@] }),
        (Some(_), None) => Err(ErrModel { kind: ErrorKind::MissingField, path: seq!["u"@] }),
    }
}

/// The walk from pair `i` on, with the slots accumulated so far. Each
/// recognized key decodes its value and overwrites its slot; the first
/// key outside the allowed set, the first wrongly shaped value, and the
/// first malformed identifier each stop the walk at once.
pub open spec fn walk_from(
    pairs: Seq<(WireValue, WireValue)>,
    i: int,
    f: Option<u64>,
    u: Option<u128>,
) -> Result<Inner, ErrModel>
    decreases pairs.len() - i,
{
    if i < 0 || i >= pairs.len() {
        finish_spec(f, u)
    } else {
        match pairs[i].0 {
            WireValue::Text(ks) => if ks@ == "f"@ {
                match pairs[i].1 {
                    WireValue::Num(bits) => walk_from(pairs, i + 1, Some(bits), u),
                    _ => Err(ErrModel { kind: ErrorKind::TypeMismatch, path: seq!["f"@] }),
                }
            } else if ks@ == "u"@ {
                match pairs[i].1 {
                    WireValue::Text(s) => match uuid_of(s@) {
                        Some(x) => walk_from(pairs, i + 1, f, Some(x)),
                        None => Err(ErrModel { kind: ErrorKind::Syntax, path: seq!["u"@] }),
                    },
                    _ => Err(ErrModel { kind: ErrorKind::TypeMismatch, path: seq!["u"@] }),
                }
            } else {
                Err(ErrModel { kind: ErrorKind::UnknownField, path: seq![ks@] })
            },
            _ => Err(ErrModel { kind: ErrorKind::TypeMismatch, path: Seq::empty() }),
        }
    }
}

/// What the field walker yields on a whole delivered pair sequence.
pub open spec fn walk_spec(pairs: Seq<(WireValue, WireValue)>) -> Result<Inner, ErrModel> {
    walk_from(pairs, 0, None, None)
}

/// The exec result `r` is exactly the outcome `s`: the same record, or
/// an error with the same kind and path.
pub open spec fn walk_models(r: Result<Inner, DecodeError>, s: Result<Inner, ErrModel>) -> bool {
    match r {
        Ok(rec) => s == Ok::<Inner, ErrModel>(rec),
        Err(e) => s == Err::<Inner, ErrModel>(e@),
    }
}

/// Validate and assemble the nested record from key/value pairs in
/// delivery order. `f` takes a numeric value, `u` a text value holding a
/// well-formed identifier; a later occurrence of a key overwrites the
/// earlier one. The walk stops at the first unrecognized key even if
/// valid keys follow, and at the first wrongly shaped value. A record is
/// returned only when both fields ended up set; otherwise the missing
/// float field is reported before the missing identifier field.
pub fn walk_record(pairs: &Vec<(WireValue, WireValue)>) -> (r: Result<Inner, DecodeError>)
    ensures
        walk_models(r, walk_spec(pairs@)),
{
    let key_f = String::from_str("f");
    let key_u = String::from_str("u");
    let mut f: Option<u64> = None;
    let mut u: Option<u128> = None;
    let mut i: usize = 0;
    while i < pairs.len()
        invariant
            i <= pairs.len(),
            key_f@ == "f"@,
            key_u@ == "u"@,
            walk_spec(pairs@) == walk_from(pairs@, i as int, f, u),
        decreases pairs.len() - i,
    {
        let pair = &pairs[i];
        match &pair.0 {
            WireValue::Text(ks) => {
                if ks.eq(&key_f) {
                    match &pair.1 {
                        WireValue::Num(bits) => {
                            f = Some(*bits);
                        },
                        _ => {
                            return Err(err_at(ErrorKind::TypeMismatch, "f"));
                        },
                    }
                } else if ks.eq(&key_u) {
                    match &pair.1 {
                        WireValue::Text(s) => {
                            match parse_identifier(s.as_str()) {
                                Some(x) => {
                                    u = Some(x);
                                },
                                None => {
                                    return Err(err_at(ErrorKind::Syntax, "u"));
                                },
                            }
                        },
                        _ => {
                            return Err(err_at(ErrorKind::TypeMismatch, "u"));
                        },
                    }
                } else {
                    return Err(err_at_key(ErrorKind::UnknownField, ks));
                }
            },
            _ => {
                return Err(err_root(ErrorKind::TypeMismatch));
            },
        }
        i = i + 1;
    }
    match (f, u) {
        (Some(fb), Some(uv)) => Ok(Inner { f_bits: fb, u: uv }),
        (None, _) => Err(err_at(ErrorKind::MissingField, "f")),
        (Some(_), None) => Err(err_at(ErrorKind::MissingField, "u")),
    }
}

/// The record's allowed key set, which an UnknownField failure names
/// beside the offending key: exactly `f` and `u`.
pub fn allowed_record_keys() -> (ks: Vec<String>)
    ensures
        ks@.len() == 2,
        ks@[0]@ == "f"@,
        ks@[1]@ == "u"@,
{
    let mut ks: Vec<String> = Vec::new();
    ks.push(String::from_str("f"));
    ks.push(String::from_str("u"));
    ks
}

/// One delivered pair that sets the identifier slot: key `u`, value a
/// text holding a well-formed identifier.
pub open spec fn is_u_entry(p: (WireValue, WireValue)) -> bool {
    &&& p.0 matches WireValue::Text(ks) && ks@ == "u"@
    &&& p.1 matches WireValue::Text(s) && uuid_of(s@) is Some
}

/// One delivered pair that sets the float slot: key `f`, numeric value.
pub open spec fn is_f_entry(p: (WireValue, WireValue)) -> bool {
    &&& p.0 matches WireValue::Text(ks) && ks@ == "f"@
    &&& p.1 matches WireValue::Num(_)
}

/// The two allowed keys are distinct texts.
pub proof fn lemma_keys_distinct()
    ensures
        "f"@ != "u"@,
{
    reveal_strlit("f");
    reveal_strlit("u");
    assert("f"@[0] == 'f');
    assert("u"@[0] == 'u');
}

proof fn lemma_missing_f_from(pairs: Seq<(WireValue, WireValue)>, i: int, u: Option<u128>)
    requires
        0 <= i <= pairs.len(),
        forall|j: int| i <= j < pairs.len() ==> is_u_entry(#[trigger] pairs[j]),
    ensures
        walk_from(pairs, i, None, u) == Err::<Inner, ErrModel>(
            ErrModel { kind: ErrorKind::MissingField, path: seq!["f"@] },
        ),
    decreases pairs.len() - i,
{
    lemma_keys_distinct();
    if i < pairs.len() {
        let s = pairs[i].1->Text_0;
        lemma_missing_f_from(pairs, i + 1, Some(uuid_of(s@)->Some_0));
    }
}

/// Law: the float field is demanded first. A document whose pairs all
/// set only the identifier field (so the float slot stays empty) fails
/// with MissingField for `f`.
pub proof fn lemma_missing_f(pairs: Seq<(WireValue, WireValue)>)
    requires
        forall|j: int| 0 <= j < pairs.len() ==> is_u_entry(#[trigger] pairs[j]),
    ensures
        walk_spec(pairs) == Err::<Inner, ErrModel>(
            ErrModel { kind: ErrorKind::MissingField, path: seq!["f"@] },
        ),
{
    lemma_missing_f_from(pairs, 0, None);
}

proof fn lemma_missing_u_from(pairs: Seq<(WireValue, WireValue)>, i: int, f: Option<u64>)
    requires
        0 <= i <= pairs.len(),
        f is Some,
        forall|j: int| i <= j < pairs.len() ==> is_f_entry(#[trigger] pairs[j]),
    ensures
        walk_from(pairs, i, f, None) == Err::<Inner, ErrModel>(
            ErrModel { kind: ErrorKind::MissingField, path: seq!["u"@] },
        ),
    decreases pairs.len() - i,
{
    if i < pairs.len() {
        let bits = pairs[i].1->Num_0;
        lemma_missing_u_from(pairs, i + 1, Some(bits));
    }
}

/// Law: with the float field set and the identifier field never set, the
/// walk fails with MissingField for `u` — checked after `f`.
pub proof fn lemma_missing_u(pairs: Seq<(WireValue, WireValue)>)
    requires
        pairs.len() > 0,
        forall|j: int| 0 <= j < pairs.len() ==> is_f_entry(#[trigger] pairs[j]),
    ensures
        walk_spec(pairs) == Err::<Inner, ErrModel>(
            ErrModel { kind: ErrorKind::MissingField, path: seq!["u"@] },
        ),
{
    let bits = pairs[0].1->Num_0;
    lemma_missing_u_from(pairs, 1, Some(bits));
}

/// Law: the walk stops at the first unrecognized key, whatever follows —
/// even valid and complete `f` and `u` pairs later on.
pub proof fn lemma_unknown_short_circuit(pairs: Seq<(WireValue, WireValue)>, ks: String)
    requires
        pairs.len() > 0,
        pairs[0].0 == WireValue::Text(ks),
        ks@ != "f"@,
        ks@ != "u"@,
    ensures
        walk_spec(pairs) == Err::<Inner, ErrModel>(
            ErrModel { kind: ErrorKind::UnknownField, path: seq![ks@] },
        ),
{
}

/// Law: a document that delivers the `f` key twice decodes with the
/// second value — the later write wins, and no error is raised.
pub proof fn lemma_last_write_wins(
    kf1: String,
    kf2: String,
    ku: String,
    b1: u64,
    b2: u64,
    s: String,
    x: u128,
)
    requires
        kf1@ == "f"@,
        kf2@ == "f"@,
        ku@ == "u"@,
        uuid_of(s@) == Some(x),
    ensures
        walk_spec(
            seq![
                (WireValue::Text(kf1), WireValue::Num(b1)),
                (WireValue::Text(kf2), WireValue::Num(b2)),
                (WireValue::Text(ku), WireValue::Text(s)),
            ],
        ) == Ok::<Inner, ErrModel>(Inner { f_bits: b2, u: x }),
{
    lemma_keys_distinct();
    let pairs = seq![
        (WireValue::Text(kf1), WireValue::Num(b1)),
        (WireValue::Text(kf2), WireValue::Num(b2)),
        (WireValue::Text(ku), WireValue::Text(s)),
    ];
    assert(walk_from(pairs, 2, Some(b2), None) == walk_from(pairs, 3, Some(b2), Some(x)));
    assert(walk_from(pairs, 1, Some(b1), None) == walk_from(pairs, 2, Some(b2), None));
    assert(walk_from(pairs, 0, None, None) == walk_from(pairs, 1, Some(b1), None));
}

/// Law: a text value under the `f` key is a type mismatch on `f`, and
/// the walk stops there — nothing after the pair is looked at.
pub proof fn lemma_type_mismatch_f(kf: String, s: String, rest: Seq<(WireValue, WireValue)>)
    requires
        kf@ == "f"@,
    ensures
        walk_spec(seq![(WireValue::Text(kf), WireValue::Text(s))] + rest) == Err::<Inner, ErrModel>(
            ErrModel { kind: ErrorKind::TypeMismatch, path: seq!["f"@] },
        ),
{
    let pairs = seq![(WireValue::Text(kf), WireValue::Text(s))] + rest;
    assert(pairs[0] == (WireValue::Text(kf), WireValue::Text(s)));
}

} // verus!
