use vstd::prelude::*;

use crate::error::SaveError;

verus! {

/// One argument value as the host hands it over, reduced to what is read here.
#[derive(Debug, Clone, PartialEq, Eq)]
pub enum ArgValue {
    Str(String),
    Bool(bool),
    /// Any value of another type (a number, a list, a map, null).
    Other,
}

/// The named arguments of one call. Where a name occurs more than once, the
/// first entry counts.
#[derive(Debug, Clone, PartialEq, Eq)]
pub struct ArgumentBag {
    pub entries: Vec<(String, ArgValue)>,
}

/// What one call asks for, once its arguments have been read.
#[derive(Debug, Clone, PartialEq, Eq)]
pub struct WriteRequest {
    pub relative_path: String,
    pub payload: String,
    pub payload_is_base64: bool,
}

/// The value given for `name`: that of the first entry with this name.
pub open spec fn lookup(entries: Seq<(String, ArgValue)>, name: Seq<char>) -> Option<ArgValue>
    decreases entries.len(),
{
    if entries.len() == 0 {
        None
    } else if entries[0].0@ == name {
        Some(entries[0].1)
    } else {
        lookup(entries.drop_first(), name)
    }
}

/// A required string argument: its text, or `None` when it is absent or not a string.
pub open spec fn string_arg(v: Option<ArgValue>) -> Option<Seq<char>> {
    match v {
        Some(ArgValue::Str(s)) => Some(s@),
        _ => None,
    }
}

/// An optional flag: `Some(b)` for absent (false) or a boolean, `None` for another type.
pub open spec fn flag_arg(v: Option<ArgValue>) -> Option<bool> {
    match v {
        None => Some(false),
        Some(ArgValue::Bool(b)) => Some(b),
        _ => None,
    }
}

/// The request that a bag makes, as (path, data, base64), or the name of the
/// first argument that is missing or wrongly typed, checked in the order
/// `path`, `data`, `base64`.
pub open spec fn request_of(entries: Seq<(String, ArgValue)>) -> Result<
    (Seq<char>, Seq<char>, bool),
    Seq<char>,
> {
    match string_arg(lookup(entries, "path"@)) {
        None => Err("path"@),
        Some(p) => match string_arg(lookup(entries, "data"@)) {
            None => Err("data"@),
            Some(d) => match flag_arg(lookup(entries, "base64"@)) {
                None => Err("base64"@),
                Some(b) => Ok((p, d, b)),
            },
        },
    }
}

impl ArgumentBag {
    pub open spec fn view(&self) -> Seq<(String, ArgValue)> {
        self.entries@
    }

    pub fn new() -> (r: Self)
        ensures
            r@ == Seq::<(String, ArgValue)>::empty(),
    {
        ArgumentBag { entries: Vec::new() }
    }

    /// Adds an entry at the end; an earlier entry of the same name still counts.
    pub fn insert(&mut self, name: String, value: ArgValue)
        ensures
            final(self)@ == old(self)@.push((name, value)),
    {
        self.entries.push((name, value));
    }

    /// The position of the first entry named `name`.
    pub fn position(&self, name: &str) -> (r: Option<usize>)
        ensures
            match r {
                Some(i) => i < self@.len() && lookup(self@, name@) == Some(self@[i as int].1),
                None => lookup(self@, name@) is None,
            },
    {
        let key = name.to_owned();
        let n = self.entries.len();
        let mut i: usize = 0;
        assert(self@.skip(0) =~= self@);
        while i < n
            invariant
                n == self@.len(),
                i <= n,
                key@ == name@,
                lookup(self@, name@) == lookup(self@.skip(i as int), name@),
            decreases n - i,
        {
            assert(self@.skip(i as int).drop_first() =~= self@.skip(i + 1));
            if self.entries[i].0 == key {
                return Some(i);
            }
            i = i + 1;
        }
        None
    }

    /// A required string argument.
    pub fn required_string(&self, name: &str) -> (r: Result<String, SaveError>)
        ensures
            match r {
                Ok(s) => string_arg(lookup(self@, name@)) == Some(s@),
                Err(e) => string_arg(lookup(self@, name@)) is None && e is Argument
                    && e->Argument_0@ == name@,
            },
    {
        match self.position(name) {
            Some(i) => match &self.entries[i].1 {
                ArgValue::Str(s) => Ok(s.clone()),
                _ => Err(SaveError::Argument(name.to_owned())),
            },
            None => Err(SaveError::Argument(name.to_owned())),
        }
    }

    /// An optional boolean argument, false when absent.
    pub fn optional_flag(&self, name: &str) -> (r: Result<bool, SaveError>)
        ensures
            match r {
                Ok(b) => flag_arg(lookup(self@, name@)) == Some(b),
                Err(e) => flag_arg(lookup(self@, name@)) is None && e is Argument
                    && e->Argument_0@ == name@,
            },
    {
        match self.position(name) {
            Some(i) => match &self.entries[i].1 {
                ArgValue::Bool(b) => Ok(*b),
                _ => Err(SaveError::Argument(name.to_owned())),
            },
            None => Ok(false),
        }
    }
}

/// Reads the request out of a bag; other names are ignored.
pub fn extract_request(bag: &ArgumentBag) -> (r: Result<WriteRequest, SaveError>)
    ensures
        match r {
            Ok(req) => request_of(bag@) == Ok::<_, Seq<char>>(
                (req.relative_path@, req.payload@, req.payload_is_base64),
            ),
            Err(e) => e is Argument && request_of(bag@) == Err::<(Seq<char>, Seq<char>, bool), _>(
                e->Argument_0@,
            ),
        },
{
    let relative_path = match bag.required_string("path") {
        Ok(s) => s,
        Err(e) => return Err(e),
    };
    let payload = match bag.required_string("data") {
        Ok(s) => s,
        Err(e) => return Err(e),
    };
    let payload_is_base64 = match bag.optional_flag("base64") {
        Ok(b) => b,
        Err(e) => return Err(e),
    };
    Ok(WriteRequest { relative_path, payload, payload_is_base64 })
}

} // verus!
