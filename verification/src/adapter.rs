use vstd::prelude::*;
use crate::cell::WriteOnceCell;
use crate::errors::{DecodeError, ErrModel, ErrorKind};
use crate::errors::{err_at, err_root, nest_under};
use crate::formats::identifier_text;
use crate::record::{Inner, Outer};
use crate::value::WireValue;
use crate::walker::{walk_from, walk_record, walk_spec};

verus! {

/// A walker failure seen from the enclosing field: `inner` is put in
/// front of its path.
pub open spec fn nested_model(e: ErrModel) -> ErrModel {
    ErrModel { kind: e.kind, path: seq!["inner"@] + e.path }
}

/// What the presence adapter yields for the wire value standing at the
/// optional field: absence gives an empty cell content, a map is walked
/// as the nested record, and anything else is a type mismatch on the
/// field itself.
pub open spec fn presence_spec(v: WireValue) -> Result<Option<Inner>, ErrModel> {
    match v {
        WireValue::Null => Ok(None),
        WireValue::Mapping(pairs) => match walk_spec(pairs@) {
            Ok(rec) => Ok(Some(rec)),
            Err(e) => Err(nested_model(e)),
        },
        _ => Err(ErrModel { kind: ErrorKind::TypeMismatch, path: seq!["inner"@] }),
    }
}

/// The exec result `r` is exactly the outcome `s`: a cell with the same
/// content, or an error with the same kind and path.
pub open spec fn cell_models(
    r: Result<WriteOnceCell<Inner>, DecodeError>,
    s: Result<Option<Inner>, ErrModel>,
) -> bool {
    match r {
        Ok(c) => s == Ok::<Option<Inner>, ErrModel>(c@),
        Err(e) => s == Err::<Option<Inner>, ErrModel>(e@),
    }
}

/// Decide presence for the wire value at the optional field. A null
/// scalar denotes absence and yields an empty cell with no further
/// decoding; a map is handed to the field walker and its record fills a
/// fresh cell; a walker failure is propagated unchanged but for the
/// enclosing field's name put in front of its path.
pub fn decode_present(v: &WireValue) -> (r: Result<WriteOnceCell<Inner>, DecodeError>)
    ensures
        cell_models(r, presence_spec(*v)),
{
    match v {
        WireValue::Null => Ok(WriteOnceCell::empty()),
        WireValue::Mapping(pairs) => match walk_record(pairs) {
            Ok(rec) => Ok(WriteOnceCell::filled(rec)),
            Err(e) => Err(nest_under("inner", e)),
        },
        _ => Err(err_at(ErrorKind::TypeMismatch, "inner")),
    }
}

/// The walk over the container's own pairs from `i` on. The one key the
/// schema reads is `inner`: its value goes to the presence adapter, and
/// a second occurrence is refused. Keys the schema does not read are
/// passed over. A container whose map ends without `inner` is refused:
/// the field must be present, with a null value where it denotes
/// absence.
pub open spec fn outer_from(
    pairs: Seq<(WireValue, WireValue)>,
    i: int,
    found: Option<Option<Inner>>,
) -> Result<Option<Inner>, ErrModel>
    decreases pairs.len() - i,
{
    if i < 0 || i >= pairs.len() {
        match found {
            Some(content) => Ok(content),
            None => Err(ErrModel { kind: ErrorKind::MissingField, path: seq!["inner"@] }),
        }
    } else {
        match pairs[i].0 {
            WireValue::Text(ks) => if ks@ == "inner"@ {
                if found is Some {
                    Err(ErrModel { kind: ErrorKind::DuplicateField, path: seq!["inner"@] })
                } else {
                    match presence_spec(pairs[i].1) {
                        Ok(content) => outer_from(pairs, i + 1, Some(content)),
                        Err(e) => Err(e),
                    }
                }
            } else {
                outer_from(pairs, i + 1, found)
            },
            _ => outer_from(pairs, i + 1, found),
        }
    }
}

/// What decoding a whole document yields: the cell content on success,
/// the first failure otherwise. A document that is not a map at all is
/// a type mismatch of the document itself (empty path).
pub open spec fn container_spec(v: WireValue) -> Result<Option<Inner>, ErrModel> {
    match v {
        WireValue::Mapping(pairs) => outer_from(pairs@, 0, None),
        _ => Err(ErrModel { kind: ErrorKind::TypeMismatch, path: Seq::empty() }),
    }
}

/// The exec result `r` is exactly the outcome `s`: a container whose
/// cell has the same content, or an error with the same kind and path.
pub open spec fn outer_models(
    r: Result<Outer, DecodeError>,
    s: Result<Option<Inner>, ErrModel>,
) -> bool {
    match r {
        Ok(o) => s == Ok::<Option<Inner>, ErrModel>(o.inner@),
        Err(e) => s == Err::<Option<Inner>, ErrModel>(e@),
    }
}

/// The view of the found slot during the container walk.
pub open spec fn found_view(found: Option<WriteOnceCell<Inner>>) -> Option<Option<Inner>> {
    match found {
        Some(c) => Some(c@),
        None => None,
    }
}

/// Decode a whole document, already read into a wire value, into a
/// fresh container. No partially filled container is ever returned: any
/// failure of the walk, of presence decision, or of the container's own
/// shape aborts the decode with that error alone.
pub fn decode_container(v: &WireValue) -> (r: Result<Outer, DecodeError>)
    ensures
        outer_models(r, container_spec(*v)),
{
    match v {
        WireValue::Mapping(pairs) => {
            let key_inner = String::from_str("inner");
            let mut found: Option<WriteOnceCell<Inner>> = None;
            let mut i: usize = 0;
            while i < pairs.len()
                invariant
                    i <= pairs.len(),
                    key_inner@ == "inner"@,
                    container_spec(*v) == outer_from(pairs@, i as int, found_view(found)),
                decreases pairs.len() - i,
            {
                let pair = &pairs[i];
                match &pair.0 {
                    WireValue::Text(ks) => {
                        if ks.eq(&key_inner) {
                            if found.is_some() {
                                return Err(err_at(ErrorKind::DuplicateField, "inner"));
                            }
                            match decode_present(&pair.1) {
                                Ok(c) => {
                                    found = Some(c);
                                },
                                Err(e) => {
                                    return Err(e);
                                },
                            }
                        }
                    },
                    _ => {},
                }
                i = i + 1;
            }
            match found {
                Some(c) => Ok(Outer { inner: c }),
                None => Err(err_at(ErrorKind::MissingField, "inner")),
            }
        },
        _ => Err(err_root(ErrorKind::TypeMismatch)),
    }
}

/// Encode-side image of absence: the format's null scalar. Decoding it
/// back yields an empty cell — the absent half of the round trip.
pub fn encode_absent() -> (v: WireValue)
    ensures
        presence_spec(v) == Ok::<Option<Inner>, ErrModel>(None),
{
    WireValue::Null
}

/// Encode-side image of a record: the two-key map a standard encoder
/// writes for it, the identifier in its canonical text form. Decoding
/// it back yields exactly the record encoded — the filled half of the
/// round trip, for every float bit pattern and every identifier value.
pub fn encode_inner(rec: &Inner) -> (v: WireValue)
    ensures
        presence_spec(v) == Ok::<Option<Inner>, ErrModel>(Some(*rec)),
{
    let mut pairs: Vec<(WireValue, WireValue)> = Vec::new();
    pairs.push((WireValue::Text(String::from_str("f")), WireValue::Num(rec.f_bits)));
    pairs.push((WireValue::Text(String::from_str("u")), WireValue::Text(identifier_text(rec.u))));
    proof {
        crate::walker::lemma_keys_distinct();
        assert(walk_from(pairs@, 2, Some(rec.f_bits), Some(rec.u)) == Ok::<Inner, ErrModel>(*rec));
        assert(walk_from(pairs@, 1, Some(rec.f_bits), None) == walk_from(
            pairs@,
            2,
            Some(rec.f_bits),
            Some(rec.u),
        ));
        assert(walk_from(pairs@, 0, None, None) == walk_from(pairs@, 1, Some(rec.f_bits), None));
    }
    WireValue::Mapping(pairs)
}

/// Encode-side image of a whole container: a one-key map holding the
/// cell's content under `inner`, null where the cell is empty. Decoding
/// it back yields a container with equal cell content — the round trip
/// law at the wire-value level.
pub fn encode_container(c: &Outer) -> (v: WireValue)
    ensures
        container_spec(v) == Ok::<Option<Inner>, ErrModel>(c.inner@),
{
    let field = match c.inner.read() {
        Some(rec) => encode_inner(rec),
        None => encode_absent(),
    };
    let mut pairs: Vec<(WireValue, WireValue)> = Vec::new();
    pairs.push((WireValue::Text(String::from_str("inner")), field));
    proof {
        assert(outer_from(pairs@, 1, Some(c.inner@)) == Ok::<Option<Inner>, ErrModel>(c.inner@));
        assert(outer_from(pairs@, 0, None) == outer_from(pairs@, 1, Some(c.inner@)));
    }
    WireValue::Mapping(pairs)
}

/// Law: decoding is deterministic — two results that both model the
/// same document's outcome carry equal cell content, or the very same
/// error. Decoding the same valid document twice yields equal cells.
pub proof fn lemma_decode_deterministic(
    v: WireValue,
    r1: Result<Outer, DecodeError>,
    r2: Result<Outer, DecodeError>,
)
    requires
        outer_models(r1, container_spec(v)),
        outer_models(r2, container_spec(v)),
    ensures
        r1 is Ok <==> r2 is Ok,
        r1 matches Ok(o1) ==> r2 matches Ok(o2) && o1.inner@ == o2.inner@,
        r1 matches Err(e1) ==> r2 matches Err(e2) && e1@ == e2@,
{
}

} // verus!
