//! A serializer that flattens nested structs into a list of key/value pairs.
//! The key of a value is the path of field names that leads to it, joined by
//! `-`, which cannot occur in a Rust identifier.
use vstd::prelude::*;
use vstd::string::StringExecFns;

use super::error::{Error, Result};
use crate::text::{bool_string, bool_text, char_string, decimal, decimal_string, signed_decimal, signed_decimal_string};

verus! {

/// Separates the names of nested fields in a key.
pub const ENV_VAR_NAME_SEPARATOR: &'static str = "-";

/// The key under which a field named `key` is stored, below a serializer whose
/// key is `root`.
pub open spec fn nested_key(root: Option<String>, key: Seq<char>) -> Seq<char> {
    match root {
        Some(r) => r@ + seq!['-'] + key,
        None => key,
    }
}

/// Serializes values into `dst`, each under the key `root_key_name`.
pub struct Serializer<'a> {
    /// Key of the value being serialized; `None` at the top level, where only
    /// a struct can stand.
    pub root_key_name: Option<String>,
    /// Where the key/value pairs go, in the order in which they are met.
    pub dst: &'a mut Vec<(String, String)>,
}

impl<'a> Serializer<'a> {
    /// What storing a value that renders as `value` does: with a key, the
    /// pair is appended to `dst`; without one, nothing is stored and the
    /// value is reported.
    pub open spec fn stores(
        &self,
        after: &Serializer<'a>,
        value: Seq<char>,
        r: Result<()>,
    ) -> bool {
        &&& after.root_key_name == self.root_key_name
        &&& match self.root_key_name {
            Some(key) => {
                &&& r is Ok
                &&& (*after.dst)@.len() == (*self.dst)@.len() + 1
                &&& (*after.dst)@.drop_last() == (*self.dst)@
                &&& (*after.dst)@.last().0 == key
                &&& (*after.dst)@.last().1@ == value
            },
            None => {
                &&& r matches Err(Error::EmptySerializationKeyName { value_being_serialized: v })
                    && v@ == value
                &&& (*after.dst)@ == (*self.dst)@
            },
        }
    }

    /// A serializer for the top level, which has no key.
    pub fn new(dst: &'a mut Vec<(String, String)>) -> (r: Self)
        ensures
            r.root_key_name is None,
            *r.dst == *old(dst),
            *final(r.dst) == *final(dst),
    {
        Self { root_key_name: None, dst }
    }

    /// A serializer whose values are stored under `prefix`.
    pub fn with_prefix(prefix: String, dst: &'a mut Vec<(String, String)>) -> (r: Self)
        ensures
            r.root_key_name == Some(prefix),
            *r.dst == *old(dst),
            *final(r.dst) == *final(dst),
    {
        Self { root_key_name: Some(prefix), dst }
    }

    /// Stores `value` under this serializer's key.
    pub fn serialize_text(&mut self, value: String) -> (r: Result<()>)
        ensures
            old(self).stores(final(self), value@, r),
            *final(final(self).dst) == *final(old(self).dst),
    {
        match &self.root_key_name {
            Some(key) => {
                let ghost before = (*self.dst)@;
                self.dst.push((key.clone(), value));
                assert((*self.dst)@.drop_last() =~= before);
                Ok(())
            },
            None => Err(Error::EmptySerializationKeyName { value_being_serialized: value }),
        }
    }

    /// Stores a string as it is.
    pub fn serialize_str(&mut self, value: &str) -> (r: Result<()>)
        ensures
            old(self).stores(final(self), value@, r),
            *final(final(self).dst) == *final(old(self).dst),
    {
        self.serialize_text(value.to_owned())
    }

    /// Stores `true` or `false`.
    pub fn serialize_bool(&mut self, value: bool) -> (r: Result<()>)
        ensures
            old(self).stores(final(self), bool_text(value), r),
            *final(final(self).dst) == *final(old(self).dst),
    {
        self.serialize_text(bool_string(value))
    }

    /// Stores the one character.
    pub fn serialize_char(&mut self, value: char) -> (r: Result<()>)
        ensures
            old(self).stores(final(self), seq![value], r),
            *final(final(self).dst) == *final(old(self).dst),
    {
        self.serialize_text(char_string(value))
    }

    /// Stores the decimal rendering of `value`.
    pub fn serialize_i8(&mut self, value: i8) -> (r: Result<()>)
        ensures
            old(self).stores(final(self), signed_decimal(value as int), r),
            *final(final(self).dst) == *final(old(self).dst),
    {
        self.serialize_text(signed_decimal_string(value as i128))
    }

    /// Stores the decimal rendering of `value`.
    pub fn serialize_i16(&mut self, value: i16) -> (r: Result<()>)
        ensures
            old(self).stores(final(self), signed_decimal(value as int), r),
            *final(final(self).dst) == *final(old(self).dst),
    {
        self.serialize_text(signed_decimal_string(value as i128))
    }

    /// Stores the decimal rendering of `value`.
    pub fn serialize_i32(&mut self, value: i32) -> (r: Result<()>)
        ensures
            old(self).stores(final(self), signed_decimal(value as int), r),
            *final(final(self).dst) == *final(old(self).dst),
    {
        self.serialize_text(signed_decimal_string(value as i128))
    }

    /// Stores the decimal rendering of `value`.
    pub fn serialize_i64(&mut self, value: i64) -> (r: Result<()>)
        ensures
            old(self).stores(final(self), signed_decimal(value as int), r),
            *final(final(self).dst) == *final(old(self).dst),
    {
        self.serialize_text(signed_decimal_string(value as i128))
    }

    /// Stores the decimal rendering of `value`.
    pub fn serialize_u8(&mut self, value: u8) -> (r: Result<()>)
        ensures
            old(self).stores(final(self), decimal(value as nat), r),
            *final(final(self).dst) == *final(old(self).dst),
    {
        self.serialize_text(decimal_string(value as u128))
    }

    /// Stores the decimal rendering of `value`.
    pub fn serialize_u16(&mut self, value: u16) -> (r: Result<()>)
        ensures
            old(self).stores(final(self), decimal(value as nat), r),
            *final(final(self).dst) == *final(old(self).dst),
    {
        self.serialize_text(decimal_string(value as u128))
    }

    /// Stores the decimal rendering of `value`.
    pub fn serialize_u32(&mut self, value: u32) -> (r: Result<()>)
        ensures
            old(self).stores(final(self), decimal(value as nat), r),
            *final(final(self).dst) == *final(old(self).dst),
    {
        self.serialize_text(decimal_string(value as u128))
    }

    /// Stores the decimal rendering of `value`.
    pub fn serialize_u64(&mut self, value: u64) -> (r: Result<()>)
        ensures
            old(self).stores(final(self), decimal(value as nat), r),
            *final(final(self).dst) == *final(old(self).dst),
    {
        self.serialize_text(decimal_string(value as u128))
    }

    /// The key under which the field `key` of the struct being serialized is
    /// stored: this serializer's key, `-` and `key`; or `key` alone at the
    /// top level.
    pub fn field_key(&self, key: &str) -> (r: String)
        ensures
            r@ == nested_key(self.root_key_name, key@),
    {
        match &self.root_key_name {
            Some(root_key_name) => {
                let mut k = root_key_name.clone();
                proof { reveal_strlit("-"); }
                k.append(ENV_VAR_NAME_SEPARATOR);
                k.append(key);
                k
            },
            None => key.to_owned(),
        }
    }
}

/// No two entries share a key.
pub open spec fn keys_distinct(entries: Seq<(String, String)>) -> bool {
    forall|i: int, j: int| 0 <= i < j < entries.len() ==> entries[i].0@ != entries[j].0@
}

/// Entry `j` is the first whose key was met before, at entry `i`.
pub open spec fn first_duplicate(entries: Seq<(String, String)>, i: int, j: int) -> bool {
    &&& 0 <= i < j < entries.len()
    &&& keys_distinct(entries.take(j))
    &&& entries[i].0@ == entries[j].0@
}

/// Checks that the entries can form a map, that is that no key repeats. The
/// first repeated key is reported, with the value that repeats it and the
/// value stored first.
pub fn check_unique_keys(entries: &Vec<(String, String)>) -> (r: Result<()>)
    ensures
        r is Ok <==> keys_distinct(entries@),
        r matches Err(e) ==> exists|i: int, j: int|
            #![trigger entries@[i], entries@[j]]
            first_duplicate(entries@, i, j) && (e matches Error::DuplicateSerializationKeys {
                key,
                value_1,
                value_2,
            } && key@ == entries@[i].0@ && value_1@ == entries@[j].1@ && value_2@
                == entries@[i].1@),
{
    let n = entries.len();
    let mut j: usize = 0;
    while j < n
        invariant
            j <= n,
            n == entries@.len(),
            keys_distinct(entries@.take(j as int)),
        decreases n - j,
    {
        let mut i: usize = 0;
        while i < j
            invariant
                i <= j < n,
                n == entries@.len(),
                keys_distinct(entries@.take(j as int)),
                forall|k: int| 0 <= k < i ==> entries@[k].0@ != entries@[j as int].0@,
            decreases j - i,
        {
            if entries[i].0 == entries[j].0 {
                let e = Error::DuplicateSerializationKeys {
                    key: entries[i].0.clone(),
                    value_1: entries[j].1.clone(),
                    value_2: entries[i].1.clone(),
                };
                assert(first_duplicate(entries@, i as int, j as int));
                assert(!keys_distinct(entries@));
                return Err(e);
            }
            i += 1;
        }
        assert(keys_distinct(entries@.take(j + 1))) by {
            assert forall|a: int, b: int| 0 <= a < b < j + 1 implies #[trigger] entries@.take(j + 1)[a].0@
                != #[trigger] entries@.take(j + 1)[b].0@ by {
                if b < j {
                    assert(entries@.take(j as int)[a] == entries@[a]);
                    assert(entries@.take(j as int)[b] == entries@[b]);
                }
            }
        }
        j += 1;
    }
    assert(entries@.take(n as int) =~= entries@);
    Ok(())
}

} // verus!
