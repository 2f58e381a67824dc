//! The arguments of a tool call.
//!
//! The host hands a tool its arguments as a JSON object. For each argument
//! present, an [`ArgEntry`] holds what the host SDK's accessors yield for it
//! (as a string, an integer, a boolean) and the raw JSON value. An argument
//! that is absent reads as the empty string, no integer and no boolean.
use vstd::prelude::*;

use crate::json::JsonKind;
use crate::text::{owned, push_str, str_eq};

verus! {

/// The raw JSON value of an argument.
#[derive(Clone, Debug)]
pub enum RawValue {
    Null,
    /// A JSON string, with its content.
    Str(String),
    /// Any other value: its kind and its compact JSON text.
    Json(JsonKind, String),
}

pub enum RawV {
    Null,
    Str(Seq<char>),
    Json(JsonKind, Seq<char>),
}

impl RawValue {
    pub open spec fn view(&self) -> RawV {
        match self {
            RawValue::Null => RawV::Null,
            RawValue::Str(s) => RawV::Str(s@),
            RawValue::Json(k, t) => RawV::Json(*k, t@),
        }
    }
}

/// One argument of a tool call.
#[derive(Clone, Debug)]
pub struct ArgEntry {
    pub key: String,
    /// The argument read as a string.
    pub text: String,
    /// The argument read as an integer, if it reads as one.
    pub int: Option<i64>,
    /// The argument read as a boolean, if it reads as one.
    pub flag: Option<bool>,
    /// The argument's raw JSON value.
    pub raw: RawValue,
    /// For a JSON number or a non-empty string, the argument read as a
    /// floating-point number: the JSON text of that number, or the message of
    /// the error met reading the string as one.
    pub number: Option<Result<String, String>>,
}

pub struct ArgEntryV {
    pub key: Seq<char>,
    pub text: Seq<char>,
    pub int: Option<i64>,
    pub flag: Option<bool>,
    pub raw: RawV,
    pub number: Option<Result<Seq<char>, Seq<char>>>,
}

impl ArgEntry {
    pub open spec fn view(&self) -> ArgEntryV {
        ArgEntryV {
            key: self.key@,
            text: self.text@,
            int: self.int,
            flag: self.flag,
            raw: self.raw.view(),
            number: match &self.number {
                Some(Ok(t)) => Some(Ok(t@)),
                Some(Err(e)) => Some(Err(e@)),
                None => None,
            },
        }
    }
}

/// The arguments of a tool call, in any order; a key stands at most once
/// (should one stand twice, the first is the one that counts).
#[derive(Clone, Debug)]
pub struct Args {
    pub entries: Vec<ArgEntry>,
}

impl Args {
    pub open spec fn view(&self) -> Seq<ArgEntryV> {
        self.entries@.map_values(|e: ArgEntry| e.view())
    }

    /// No arguments.
    pub fn new() -> (r: Args)
        ensures
            r.view() == Seq::<ArgEntryV>::empty(),
    {
        Args { entries: Vec::new() }
    }

    /// The argument named `key`, if present.
    pub fn get(&self, key: &str) -> (r: Option<&ArgEntry>)
        ensures
            find_arg(self.view(), key@) == match r {
                Some(e) => Some(e.view()),
                None => None::<ArgEntryV>,
            },
    {
        let mut i: usize = 0;
        assert(self.view().skip(0) == self.view());
        while i < self.entries.len()
            invariant
                0 <= i <= self.entries@.len(),
                find_arg(self.view(), key@) == find_arg(self.view().skip(i as int), key@),
            decreases self.entries@.len() - i,
        {
            assert(self.view().skip(i as int)[0] == self.entries@[i as int].view());
            if str_eq(self.entries[i].key.as_str(), key) {
                return Some(&self.entries[i]);
            }
            assert(self.view().skip(i as int).drop_first() == self.view().skip(i + 1));
            i = i + 1;
        }
        None
    }
}

/// The first argument named `k`.
pub open spec fn find_arg(a: Seq<ArgEntryV>, k: Seq<char>) -> Option<ArgEntryV>
    decreases a.len(),
{
    if a.len() == 0 {
        None
    } else if a[0].key == k {
        Some(a[0])
    } else {
        find_arg(a.drop_first(), k)
    }
}

/// The argument `k` read as a string; empty when absent.
pub open spec fn str_arg(a: Seq<ArgEntryV>, k: Seq<char>) -> Seq<char> {
    match find_arg(a, k) {
        Some(e) => e.text,
        None => Seq::empty(),
    }
}

/// The argument `k` read as an integer.
pub open spec fn int_arg(a: Seq<ArgEntryV>, k: Seq<char>) -> Option<i64> {
    match find_arg(a, k) {
        Some(e) => e.int,
        None => None,
    }
}

/// The argument `k` read as a boolean.
pub open spec fn bool_arg(a: Seq<ArgEntryV>, k: Seq<char>) -> Option<bool> {
    match find_arg(a, k) {
        Some(e) => e.flag,
        None => None,
    }
}

/// The raw value of the argument `k`.
pub open spec fn raw_arg(a: Seq<ArgEntryV>, k: Seq<char>) -> Option<RawV> {
    match find_arg(a, k) {
        Some(e) => Some(e.raw),
        None => None,
    }
}

/// `sdk::arg_str`: the argument read as a string, empty when absent.
pub fn arg_str(args: &Args, key: &str) -> (r: String)
    ensures
        r@ == str_arg(args.view(), key@),
{
    match args.get(key) {
        Some(e) => e.text.clone(),
        None => String::new(),
    }
}

/// `sdk::arg_int`: the argument read as an integer.
pub fn arg_int(args: &Args, key: &str) -> (r: Option<i64>)
    ensures
        r == int_arg(args.view(), key@),
{
    match args.get(key) {
        Some(e) => e.int,
        None => None,
    }
}

/// `sdk::arg_bool`: the argument read as a boolean.
pub fn arg_bool(args: &Args, key: &str) -> (r: Option<bool>)
    ensures
        r == bool_arg(args.view(), key@),
{
    match args.get(key) {
        Some(e) => e.flag,
        None => None,
    }
}

/// The raw value of an argument.
pub fn arg_raw<'a>(args: &'a Args, key: &str) -> (r: Option<&'a RawValue>)
    ensures
        raw_arg(args.view(), key@) == match r {
            Some(v) => Some(v.view()),
            None => None::<RawV>,
        },
{
    match args.get(key) {
        Some(e) => Some(&e.raw),
        None => None,
    }
}

/// The argument `k` read as a floating-point number.
pub open spec fn number_arg(a: Seq<ArgEntryV>, k: Seq<char>) -> Option<Result<Seq<char>, Seq<char>>> {
    match find_arg(a, k) {
        Some(e) => e.number,
        None => None,
    }
}

/// The argument read as a floating-point number.
pub fn arg_number(args: &Args, key: &str) -> (r: Option<Result<String, String>>)
    ensures
        number_arg(args.view(), key@) == match r {
            Some(Ok(t)) => Some(Ok(t@)),
            Some(Err(e)) => Some(Err(e@)),
            None => None::<Result<Seq<char>, Seq<char>>>,
        },
{
    match args.get(key) {
        Some(e) => match &e.number {
            Some(Ok(t)) => Some(Ok(t.clone())),
            Some(Err(m)) => Some(Err(m.clone())),
            None => None,
        },
        None => None,
    }
}

/// The message for a missing required argument.
pub open spec fn required_msg(key: Seq<char>) -> Seq<char> {
    key + " is required"@
}

/// The outcome of reading a required argument.
pub open spec fn required_arg(a: Seq<ArgEntryV>, k: Seq<char>) -> Result<Seq<char>, Seq<char>> {
    if str_arg(a, k).len() == 0 {
        Err(required_msg(k))
    } else {
        Ok(str_arg(a, k))
    }
}

/// A required argument: its string value, or the error `"{key} is required"`
/// when it is empty or absent.
pub fn required(args: &Args, key: &str) -> (r: Result<String, String>)
    ensures
        required_arg(args.view(), key@) == match r {
            Ok(v) => Ok(v@),
            Err(e) => Err(e@),
        },
{
    let value = arg_str(args, key);
    if value.as_str().is_empty() {
        let mut msg = owned(key);
        push_str(&mut msg, " is required");
        Err(msg)
    } else {
        Ok(value)
    }
}

} // verus!
