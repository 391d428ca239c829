//! A self-contained JSON tree. The relay's logic reads and builds JSON
//! documents through this type; the boundary code converts between it and the
//! wire form. Numbers that fit in `i64` are held exactly; any other numeric
//! literal is kept as its source text.

use vstd::prelude::*;

verus! {

#[derive(Debug)]
pub enum JsonValue {
    Null,
    Bool(bool),
    Int(i64),
    NumText(String),
    Str(String),
    Arr(Vec<JsonValue>),
    Obj(Vec<(String, JsonValue)>),
}

/// The characters are all decimal digits.
pub open spec fn all_dec_digits(s: Seq<char>) -> bool {
    forall|i: int| #![trigger s[i]] 0 <= i < s.len() ==> '0' <= s[i] <= '9'
}

/// The numeric value of a digit string, most significant digit first.
pub open spec fn dec_digits_val(s: Seq<char>) -> int
    decreases s.len(),
{
    if s.len() == 0 {
        0
    } else {
        dec_digits_val(s.drop_last()) * 10 + (s.last() as int - 48)
    }
}

proof fn lemma_dec_digits_val_nonneg(s: Seq<char>)
    requires
        all_dec_digits(s),
    ensures
        dec_digits_val(s) >= 0,
    decreases s.len(),
{
    if s.len() > 0 {
        assert(forall|i: int| 0 <= i < s.drop_last().len() ==> s.drop_last()[i] == s[i]);
        lemma_dec_digits_val_nonneg(s.drop_last());
    }
}

/// A digit string is worth at least any of its prefixes.
proof fn lemma_dec_digits_val_prefix(s: Seq<char>, k: int)
    requires
        all_dec_digits(s),
        0 <= k <= s.len(),
    ensures
        dec_digits_val(s) >= dec_digits_val(s.take(k)),
    decreases s.len() - k,
{
    if k < s.len() {
        assert(s.take(k + 1).drop_last() =~= s.take(k));
        assert(s.take(k + 1).last() == s[k]);
        assert(forall|i: int| 0 <= i < k ==> s.take(k)[i] == s[i]);
        lemma_dec_digits_val_nonneg(s.take(k));
        assert(dec_digits_val(s.take(k + 1)) >= dec_digits_val(s.take(k)));
        lemma_dec_digits_val_prefix(s, k + 1);
    } else {
        assert(s.take(k) =~= s);
    }
}

/// First binding of `key` in an object's entry list, if any.
pub open spec fn obj_lookup(entries: Seq<(String, JsonValue)>, key: Seq<char>) -> Option<JsonValue>
    decreases entries.len(),
{
    if entries.len() == 0 {
        None
    } else if entries[0].0@ == key {
        Some(entries[0].1)
    } else {
        obj_lookup(entries.skip(1), key)
    }
}

proof fn lemma_obj_lookup_skip(entries: Seq<(String, JsonValue)>, key: Seq<char>, i: int)
    requires
        0 <= i <= entries.len(),
        forall|j: int| 0 <= j < i ==> entries[j].0@ != key,
    ensures
        obj_lookup(entries, key) == obj_lookup(entries.skip(i), key),
    decreases i,
{
    if i == 0 {
        assert(entries.skip(0) =~= entries);
    } else {
        assert(entries[0].0@ != key);
        assert(obj_lookup(entries, key) == obj_lookup(entries.skip(1), key));
        assert(forall|j: int| 0 <= j < i - 1 ==> entries.skip(1)[j] == entries[j + 1]);
        lemma_obj_lookup_skip(entries.skip(1), key, i - 1);
        assert(entries.skip(1).skip(i - 1) =~= entries.skip(i));
    }
}

/// A successful lookup means some entry carries the key.
pub proof fn lemma_obj_lookup_some_key(entries: Seq<(String, JsonValue)>, key: Seq<char>)
    requires
        obj_lookup(entries, key) is Some,
    ensures
        exists|i: int| 0 <= i < entries.len() && entries[i].0@ == key,
    decreases entries.len(),
{
    if entries.len() > 0 {
        if entries[0].0@ == key {
            assert(0 <= 0 < entries.len() && entries[0].0@ == key);
        } else {
            lemma_obj_lookup_some_key(entries.skip(1), key);
            let i = choose|i: int| 0 <= i < entries.skip(1).len() && entries.skip(1)[i].0@ == key;
            assert(entries.skip(1)[i] == entries[i + 1]);
            assert(0 <= i + 1 < entries.len() && entries[i + 1].0@ == key);
        }
    }
}

impl JsonValue {
    /// Every key bound in the value is one of `keys` (vacuously true for
    /// non-objects, which bind nothing).
    pub open spec fn keys_among(self, keys: Set<Seq<char>>) -> bool {
        forall|k: Seq<char>| #![trigger self.spec_get(k)] self.spec_get(k) is Some ==> keys.contains(k)
    }

    pub open spec fn spec_get(self, key: Seq<char>) -> Option<JsonValue> {
        match self {
            JsonValue::Obj(entries) => obj_lookup(entries@, key),
            _ => None,
        }
    }

    pub open spec fn spec_str(self) -> Option<Seq<char>> {
        match self {
            JsonValue::Str(s) => Some(s@),
            _ => None,
        }
    }

    pub open spec fn spec_bool(self) -> Option<bool> {
        match self {
            JsonValue::Bool(b) => Some(b),
            _ => None,
        }
    }

    pub open spec fn spec_i64(self) -> Option<i64> {
        match self {
            JsonValue::Int(v) => Some(v),
            _ => None,
        }
    }

    /// Mirrors the usual `as_u64` reading: an unsigned integer in range,
    /// else nothing. A numeric literal beyond the signed range is carried as
    /// its digit text, so such text is read here too.
    pub open spec fn spec_u64(self) -> Option<u64> {
        match self {
            JsonValue::Int(v) => if v >= 0 {
                Some(v as u64)
            } else {
                None
            },
            JsonValue::NumText(t) => if t@.len() > 0 && all_dec_digits(t@) && dec_digits_val(t@)
                <= u64::MAX {
                Some(dec_digits_val(t@) as u64)
            } else {
                None
            },
            _ => None,
        }
    }

    pub open spec fn spec_arr(self) -> Option<Seq<JsonValue>> {
        match self {
            JsonValue::Arr(items) => Some(items@),
            _ => None,
        }
    }

    pub open spec fn field_str(self, key: Seq<char>) -> Option<Seq<char>> {
        match self.spec_get(key) {
            Some(v) => v.spec_str(),
            None => None,
        }
    }

    pub open spec fn field_bool(self, key: Seq<char>) -> Option<bool> {
        match self.spec_get(key) {
            Some(v) => v.spec_bool(),
            None => None,
        }
    }

    pub open spec fn field_i64(self, key: Seq<char>) -> Option<i64> {
        match self.spec_get(key) {
            Some(v) => v.spec_i64(),
            None => None,
        }
    }

    pub open spec fn field_u64(self, key: Seq<char>) -> Option<u64> {
        match self.spec_get(key) {
            Some(v) => v.spec_u64(),
            None => None,
        }
    }

    pub open spec fn field_arr(self, key: Seq<char>) -> Option<Seq<JsonValue>> {
        match self.spec_get(key) {
            Some(v) => v.spec_arr(),
            None => None,
        }
    }

    pub fn get<'a>(&'a self, key: &str) -> (r: Option<&'a JsonValue>)
        ensures
            match r {
                Some(v) => self.spec_get(key@) == Some(*v),
                None => self.spec_get(key@) is None,
            },
    {
        match self {
            JsonValue::Obj(entries) => {
                let k: String = key.to_owned();
                let n = entries.len();
                let mut i: usize = 0;
                while i < n
                    invariant
                        *self == JsonValue::Obj(*entries),
                        n == entries@.len(),
                        i <= n,
                        k@ == key@,
                        forall|j: int| 0 <= j < i ==> entries@[j].0@ != key@,
                    decreases n - i,
                {
                    if entries[i].0 == k {
                        proof {
                            lemma_obj_lookup_skip(entries@, key@, i as int);
                            assert(entries@.skip(i as int)[0] == entries@[i as int]);
                            assert(entries@[i as int].0@ == key@);
                            assert(entries@.skip(i as int).len() > 0);
                            assert(obj_lookup(entries@.skip(i as int), key@) == Some(
                                entries@[i as int].1,
                            ));
                            assert(self.spec_get(key@) == obj_lookup(entries@, key@));
                        }
                        return Some(&entries[i].1);
                    }
                    i += 1;
                }
                proof {
                    lemma_obj_lookup_skip(entries@, key@, n as int);
                }
                None
            },
            _ => None,
        }
    }

    /// Consumes the value and hands out the binding of `key`, if any.
    pub fn take(self, key: &str) -> (r: Option<JsonValue>)
        ensures
            match r {
                Some(v) => self.spec_get(key@) == Some(v),
                None => self.spec_get(key@) is None,
            },
    {
        match self {
            JsonValue::Obj(mut entries) => {
                let k: String = key.to_owned();
                let ghost orig = entries@;
                let n = entries.len();
                let mut i: usize = 0;
                while i < n
                    invariant
                        self is Obj && self->Obj_0@ == orig,
                        entries@ == orig,
                        n == orig.len(),
                        i <= n,
                        k@ == key@,
                        forall|j: int| 0 <= j < i ==> orig[j].0@ != key@,
                    decreases n - i,
                {
                    if entries[i].0 == k {
                        proof {
                            lemma_obj_lookup_skip(orig, key@, i as int);
                            assert(orig.skip(i as int)[0] == orig[i as int]);
                            assert(self.spec_get(key@) == obj_lookup(orig, key@));
                        }
                        let pair = entries.remove(i);
                        return Some(pair.1);
                    }
                    i += 1;
                }
                proof {
                    lemma_obj_lookup_skip(orig, key@, n as int);
                }
                None
            },
            _ => None,
        }
    }

    /// Consumes the value and hands out its elements when it is an array.
    pub fn into_arr(self) -> (r: Option<Vec<JsonValue>>)
        ensures
            match r {
                Some(items) => self.spec_arr() == Some(items@),
                None => self.spec_arr() is None,
            },
    {
        match self {
            JsonValue::Arr(items) => Some(items),
            _ => None,
        }
    }

    pub fn as_str<'a>(&'a self) -> (r: Option<&'a str>)
        ensures
            match r {
                Some(s) => self.spec_str() == Some(s@),
                None => self.spec_str() is None,
            },
    {
        match self {
            JsonValue::Str(s) => Some(s.as_str()),
            _ => None,
        }
    }

    pub fn as_bool(&self) -> (r: Option<bool>)
        ensures
            r == self.spec_bool(),
    {
        match self {
            JsonValue::Bool(b) => Some(*b),
            _ => None,
        }
    }

    pub fn as_i64(&self) -> (r: Option<i64>)
        ensures
            r == self.spec_i64(),
    {
        match self {
            JsonValue::Int(v) => Some(*v),
            _ => None,
        }
    }

    pub fn as_u64(&self) -> (r: Option<u64>)
        ensures
            r == self.spec_u64(),
    {
        match self {
            JsonValue::Int(v) => if *v >= 0 {
                Some(*v as u64)
            } else {
                None
            },
            JsonValue::NumText(t) => {
                let digits = t.as_str();
                let n = digits.unicode_len();
                if n == 0 {
                    return None;
                }
                let mut val: u64 = 0;
                let mut i: usize = 0;
                while i < n
                    invariant
                        *self == JsonValue::NumText(*t),
                        t@ == digits@,
                        n == digits@.len(),
                        n > 0,
                        i <= n,
                        all_dec_digits(digits@.take(i as int)),
                        val == dec_digits_val(digits@.take(i as int)),
                    decreases n - i,
                {
                    let c = digits.get_char(i);
                    if !('0' <= c && c <= '9') {
                        proof {
                            assert(!all_dec_digits(digits@));
                        }
                        return None;
                    }
                    let d: u64 = (c as u32) as u64 - 48;
                    if val > (u64::MAX - d) / 10 {
                        proof {
                            assert(val * 10 + d > u64::MAX) by (nonlinear_arith)
                                requires
                                    val > (u64::MAX - d) / 10,
                                    d <= 9,
                            ;
                            if all_dec_digits(digits@) {
                                assert(digits@.take(i as int + 1).drop_last() =~= digits@.take(
                                    i as int,
                                ));
                                assert(digits@.take(i as int + 1).last() == digits@[i as int]);
                                assert(dec_digits_val(digits@.take(i as int + 1)) == val * 10 + d);
                                lemma_dec_digits_val_prefix(digits@, i as int + 1);
                                assert(dec_digits_val(digits@) > u64::MAX);
                            }
                        }
                        return None;
                    }
                    proof {
                        assert(val * 10 + d <= u64::MAX) by (nonlinear_arith)
                            requires
                                val <= (u64::MAX - d) / 10,
                                d <= 9,
                        ;
                        assert(digits@.take(i as int + 1).drop_last() =~= digits@.take(i as int));
                        assert(digits@.take(i as int + 1).last() == digits@[i as int]);
                        assert(forall|k: int|
                            0 <= k < i + 1 ==> digits@.take(i as int + 1)[k] == digits@[k]);
                    }
                    val = val * 10 + d;
                    i += 1;
                }
                proof {
                    assert(digits@.take(n as int) =~= digits@);
                }
                Some(val)
            },
            _ => None,
        }
    }

    pub fn as_arr<'a>(&'a self) -> (r: Option<&'a Vec<JsonValue>>)
        ensures
            match r {
                Some(items) => self.spec_arr() == Some(items@),
                None => self.spec_arr() is None,
            },
    {
        match self {
            JsonValue::Arr(items) => Some(items),
            _ => None,
        }
    }

    /// Field read that returns an owned copy of a string value.
    pub fn get_string(&self, key: &str) -> (r: Option<String>)
        ensures
            match r {
                Some(s) => self.field_str(key@) == Some(s@),
                None => self.field_str(key@) is None,
            },
    {
        match self.get(key) {
            Some(v) => match v {
                JsonValue::Str(s) => Some(s.clone()),
                _ => None,
            },
            None => None,
        }
    }

    pub fn get_bool(&self, key: &str) -> (r: Option<bool>)
        ensures
            r == self.field_bool(key@),
    {
        match self.get(key) {
            Some(v) => v.as_bool(),
            None => None,
        }
    }

    pub fn get_i64(&self, key: &str) -> (r: Option<i64>)
        ensures
            r == self.field_i64(key@),
    {
        match self.get(key) {
            Some(v) => v.as_i64(),
            None => None,
        }
    }

    pub fn get_u64(&self, key: &str) -> (r: Option<u64>)
        ensures
            r == self.field_u64(key@),
    {
        match self.get(key) {
            Some(v) => v.as_u64(),
            None => None,
        }
    }

    pub fn get_arr<'a>(&'a self, key: &str) -> (r: Option<&'a Vec<JsonValue>>)
        ensures
            match r {
                Some(items) => self.field_arr(key@) == Some(items@),
                None => self.field_arr(key@) is None,
            },
    {
        match self.get(key) {
            Some(v) => v.as_arr(),
            None => None,
        }
    }
}

} // verus!
