//! Tolerant readers of the members of a JSON object.
//!
//! A member that is missing, or whose value is of another kind than the one
//! asked for, reads as the zero value of that kind: the empty string, zero,
//! `false`, the empty list, or nothing. Reading from a value that is no
//! object reads every member as missing.

use crate::json::{lemma_values_of, values_of, Json, JsonValue};
use crate::number::Float64;
use vstd::prelude::*;

verus! {

/// The string under `name`, or the empty string.
pub open spec fn text_field(j: JsonValue, name: Seq<char>) -> Seq<char> {
    match opt_text_field(j, name) {
        Some(s) => s,
        None => Seq::empty(),
    }
}

/// The string under `name`, if a string stands there.
pub open spec fn opt_text_field(j: JsonValue, name: Seq<char>) -> Option<Seq<char>> {
    match j.member(name) {
        Some(v) => v.text(),
        None => None,
    }
}

/// The truth value under `name`, if one stands there.
pub open spec fn opt_flag_field(j: JsonValue, name: Seq<char>) -> Option<bool> {
    match j.member(name) {
        Some(v) => v.flag(),
        None => None,
    }
}

/// The truth value under `name`, or `false`.
pub open spec fn flag_field(j: JsonValue, name: Seq<char>) -> bool {
    match opt_flag_field(j, name) {
        Some(b) => b,
        None => false,
    }
}

/// The unsigned integer under `name`, if one stands there that is at most
/// `max`.
pub open spec fn opt_unsigned_field(j: JsonValue, name: Seq<char>, max: u64) -> Option<u64> {
    match j.member(name) {
        Some(v) => match v.unsigned() {
            Some(n) => if n <= max {
                Some(n)
            } else {
                None
            },
            None => None,
        },
        None => None,
    }
}

/// The unsigned integer under `name`, or zero where none stands there that
/// is at most `max`.
pub open spec fn unsigned_field(j: JsonValue, name: Seq<char>, max: u64) -> u64 {
    match opt_unsigned_field(j, name, max) {
        Some(n) => n,
        None => 0,
    }
}

/// The number under `name` in its binary64 reading, if a number stands
/// there.
pub open spec fn opt_binary64_field(j: JsonValue, name: Seq<char>) -> Option<Float64> {
    match j.member(name) {
        Some(v) => v.binary64(),
        None => None,
    }
}

/// The number under `name` in its binary64 reading, or positive zero.
pub open spec fn binary64_field(j: JsonValue, name: Seq<char>) -> Float64 {
    match opt_binary64_field(j, name) {
        Some(x) => x,
        None => Float64 { bits: 0 },
    }
}

/// The object under `name`, if an object stands there.
pub open spec fn opt_object_field(j: JsonValue, name: Seq<char>) -> Option<JsonValue> {
    match j.member(name) {
        Some(v) => if v is Object {
            Some(v)
        } else {
            None
        },
        None => None,
    }
}

/// The value under `name`, if one stands there that is not `null`.
pub open spec fn opt_value_field(j: JsonValue, name: Seq<char>) -> Option<JsonValue> {
    match j.member(name) {
        Some(v) => if v is Null {
            None
        } else {
            Some(v)
        },
        None => None,
    }
}

/// The items of the array under `name`, if an array stands there.
pub open spec fn opt_items_field(j: JsonValue, name: Seq<char>) -> Option<Seq<JsonValue>> {
    match j.member(name) {
        Some(v) => v.items(),
        None => None,
    }
}

/// Whether every item is a string.
pub open spec fn all_text(items: Seq<JsonValue>) -> bool {
    forall|i: int| 0 <= i < items.len() ==> (#[trigger] items[i]) is Text
}

/// The strings of a list of strings.
pub open spec fn texts_of(items: Seq<JsonValue>) -> Seq<Seq<char>> {
    Seq::new(items.len(), |i: int| items[i]->Text_0)
}

/// The list of strings under `name`, or the empty list where no array of
/// strings alone stands there.
pub open spec fn text_list_field(j: JsonValue, name: Seq<char>) -> Seq<Seq<char>> {
    match opt_items_field(j, name) {
        Some(items) => if all_text(items) {
            texts_of(items)
        } else {
            Seq::empty()
        },
        None => Seq::empty(),
    }
}

/// A member that is missing reads as the zero value of every kind, and is
/// never an error.
pub proof fn lemma_missing_member_reads_as_zero(j: JsonValue, name: Seq<char>, max: u64)
    requires
        j.member(name) is None,
    ensures
        text_field(j, name) == Seq::<char>::empty(),
        opt_text_field(j, name) is None,
        flag_field(j, name) == false,
        opt_flag_field(j, name) is None,
        unsigned_field(j, name, max) == 0,
        opt_unsigned_field(j, name, max) is None,
        binary64_field(j, name) == (Float64 { bits: 0 }),
        opt_binary64_field(j, name) is None,
        text_list_field(j, name) == Seq::<Seq<char>>::empty(),
        opt_object_field(j, name) is None,
        opt_value_field(j, name) is None,
        opt_items_field(j, name) is None,
{
}

/// What is no object has no members: every name is missing in it.
pub proof fn lemma_only_objects_have_members(j: JsonValue, name: Seq<char>)
    requires
        !(j is Object),
    ensures
        j.member(name) is None,
{
}

/// Reads the string under `name`, or the empty string.
pub fn read_text(j: &Json, name: &str) -> (r: String)
    ensures
        r@ == text_field(j@, name@),
{
    match read_opt_text(j, name) {
        Some(s) => s,
        None => String::new(),
    }
}

/// Reads the string under `name`, if a string stands there.
pub fn read_opt_text(j: &Json, name: &str) -> (r: Option<String>)
    ensures
        r.deep_view() == opt_text_field(j@, name@),
{
    match j.member(name) {
        Some(v) => match v.as_text() {
            Some(s) => Some(s.clone()),
            None => None,
        },
        None => None,
    }
}

/// Reads the truth value under `name`, if one stands there.
pub fn read_opt_flag(j: &Json, name: &str) -> (r: Option<bool>)
    ensures
        r == opt_flag_field(j@, name@),
{
    match j.member(name) {
        Some(v) => v.as_flag(),
        None => None,
    }
}

/// Reads the truth value under `name`, or `false`.
pub fn read_flag(j: &Json, name: &str) -> (r: bool)
    ensures
        r == flag_field(j@, name@),
{
    match read_opt_flag(j, name) {
        Some(b) => b,
        None => false,
    }
}

/// Reads the unsigned integer under `name`, if one stands there that is at
/// most `max`.
pub fn read_opt_unsigned(j: &Json, name: &str, max: u64) -> (r: Option<u64>)
    ensures
        r == opt_unsigned_field(j@, name@, max),
        r matches Some(n) ==> n <= max,
{
    match j.member(name) {
        Some(v) => match v.as_unsigned() {
            Some(n) => if n <= max {
                Some(n)
            } else {
                None
            },
            None => None,
        },
        None => None,
    }
}

/// Reads the unsigned integer under `name`, or zero where none stands there
/// that is at most `max`.
pub fn read_unsigned(j: &Json, name: &str, max: u64) -> (r: u64)
    ensures
        r == unsigned_field(j@, name@, max),
        r <= max,
{
    match read_opt_unsigned(j, name, max) {
        Some(n) => n,
        None => 0,
    }
}

/// Reads the number under `name` in its binary64 reading, if a number
/// stands there.
pub fn read_opt_binary64(j: &Json, name: &str) -> (r: Option<Float64>)
    ensures
        r == opt_binary64_field(j@, name@),
{
    match j.member(name) {
        Some(v) => v.as_binary64(),
        None => None,
    }
}

/// Reads the number under `name` in its binary64 reading, or positive zero.
pub fn read_binary64(j: &Json, name: &str) -> (r: Float64)
    ensures
        r == binary64_field(j@, name@),
{
    match read_opt_binary64(j, name) {
        Some(x) => x,
        None => Float64 { bits: 0 },
    }
}

/// The object under `name`, if an object stands there.
pub fn read_opt_object<'a>(j: &'a Json, name: &str) -> (r: Option<&'a Json>)
    ensures
        match r {
            Some(v) => opt_object_field(j@, name@) == Some(v@),
            None => opt_object_field(j@, name@) is None,
        },
{
    match j.member(name) {
        Some(v) => if v.is_object() {
            Some(v)
        } else {
            None
        },
        None => None,
    }
}

/// A copy of the value under `name`, if one stands there that is not
/// `null`.
pub fn read_opt_value(j: &Json, name: &str) -> (r: Option<Json>)
    ensures
        match r {
            Some(v) => opt_value_field(j@, name@) == Some(v@),
            None => opt_value_field(j@, name@) is None,
        },
{
    match j.member(name) {
        Some(v) => match v {
            Json::Null => None,
            _ => Some(v.clone()),
        },
        None => None,
    }
}

/// The items of the array under `name`, if an array stands there.
pub fn read_opt_items<'a>(j: &'a Json, name: &str) -> (r: Option<&'a Vec<Json>>)
    ensures
        match r {
            Some(items) => opt_items_field(j@, name@) == Some(values_of(items@)),
            None => opt_items_field(j@, name@) is None,
        },
{
    match j.member(name) {
        Some(v) => v.as_items(),
        None => None,
    }
}

/// Reads the list of strings under `name`, or the empty list where no array
/// of strings alone stands there.
pub fn read_text_list(j: &Json, name: &str) -> (r: Vec<String>)
    ensures
        r.deep_view() == text_list_field(j@, name@),
{
    match read_opt_items(j, name) {
        Some(items) => {
            let ghost values = values_of(items@);
            proof {
                lemma_values_of(items@);
            }
            let mut out: Vec<String> = Vec::new();
            let mut i: usize = 0;
            while i < items.len()
                invariant
                    i <= items.len(),
                    opt_items_field(j@, name@) == Some(values),
                    values == values_of(items@),
                    values.len() == items.len(),
                    forall|k: int| 0 <= k < items.len() ==> #[trigger] values[k] == items@[k]@,
                    out.len() == i,
                    forall|k: int| 0 <= k < i ==> (#[trigger] values[k]) is Text,
                    forall|k: int| 0 <= k < i ==> (#[trigger] out@[k])@ == values[k]->Text_0,
                decreases items.len() - i,
            {
                match items[i].as_text() {
                    Some(s) => {
                        out.push(s.clone());
                    },
                    None => {
                        assert(!(values[i as int] is Text));
                        return Vec::new();
                    },
                }
                i += 1;
            }
            out
        },
        None => Vec::new(),
    }
}

} // verus!
