use vstd::prelude::*;

verus! {

/// Which rule a decode violated.
#[derive(Debug, Clone, Copy, PartialEq, Eq, Structural)]
pub enum ErrorKind {
    /// A required key was still absent when its map ended.
    MissingField,
    /// A key outside the allowed set was met; the walk stopped there.
    UnknownField,
    /// A key held a value of the wrong shape for its field.
    TypeMismatch,
    /// A key that may occur only once was delivered a second time.
    DuplicateField,
    /// The text itself could not be read: a malformed document, or a
    /// malformed identifier under the `u` key.
    Syntax,
}

/// Spec-level image of a `DecodeError`: the kind, and the field path as
/// character sequences, outermost segment first.
pub struct ErrModel {
    pub kind: ErrorKind,
    pub path: Seq<Seq<char>>,
}

/// A decode failure: the rule violated, and the path of field names from
/// the document root down to the offending key (empty for a failure of
/// the document as a whole).
#[derive(Debug, Clone)]
pub struct DecodeError {
    pub kind: ErrorKind,
    pub path: Vec<String>,
}

impl View for DecodeError {
    type V = ErrModel;

    open spec fn view(&self) -> ErrModel {
        ErrModel { kind: self.kind, path: self.path@.map_values(|s: String| s@) }
    }
}

/// An error naming one field.
pub fn err_at(kind: ErrorKind, name: &str) -> (e: DecodeError)
    ensures
        e@ == (ErrModel { kind, path: seq![name@] }),
{
    let e = DecodeError { kind, path: vec![String::from_str(name)] };
    proof {
        assert(e@.path =~= seq![name@]);
    }
    e
}

/// An error naming one field by an owned key taken from the document.
pub fn err_at_key(kind: ErrorKind, name: &String) -> (e: DecodeError)
    ensures
        e@ == (ErrModel { kind, path: seq![name@] }),
{
    let e = DecodeError { kind, path: vec![name.clone()] };
    proof {
        assert(e@.path =~= seq![name@]);
    }
    e
}

/// An error of the document as a whole, with an empty path.
pub fn err_root(kind: ErrorKind) -> (e: DecodeError)
    ensures
        e@ == (ErrModel { kind, path: Seq::empty() }),
{
    let e = DecodeError { kind, path: Vec::new() };
    proof {
        assert(e@.path =~= Seq::<Seq<char>>::empty());
    }
    e
}

/// The same failure, seen from one field further out: `name` is put in
/// front of the path, so a failure at `f` inside `inner` reads `inner.f`.
pub fn nest_under(name: &str, e: DecodeError) -> (r: DecodeError)
    ensures
        r@ == (ErrModel { kind: e@.kind, path: seq![name@] + e@.path }),
{
    let ghost e0 = e@;
    let DecodeError { kind, path } = e;
    let mut rest = path;
    let mut full: Vec<String> = Vec::new();
    full.push(String::from_str(name));
    full.append(&mut rest);
    let r = DecodeError { kind, path: full };
    proof {
        assert(r@.path =~= seq![name@] + e0.path);
    }
    r
}

} // verus!
