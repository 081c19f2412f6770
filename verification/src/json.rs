//! JSON values as the RPC client reads them.

use vstd::prelude::*;

verus! {

/// A JSON number, in the one of three forms that holds it exactly.
#[derive(Debug, PartialEq, Eq)]
pub enum JsonNumber {
    /// A non-negative integer that fits in 64 bits.
    Unsigned(u64),
    /// A negative integer that fits in 64 bits.
    Negative(i64),
    /// Any other number, by the bits of its double-precision value.
    Double(u64),
}

/// One member of a JSON object.
#[derive(Debug, PartialEq, Eq)]
pub struct JsonMember {
    pub key: String,
    pub value: JsonValue,
}

/// A JSON value.
#[derive(Debug, PartialEq, Eq)]
pub enum JsonValue {
    Null,
    Bool(bool),
    Number(JsonNumber),
    Text(String),
    Array(Vec<JsonValue>),
    Object(Vec<JsonMember>),
}

/// The index of the first member with the given key, if there is one.
pub open spec fn member_index(members: Seq<JsonMember>, key: Seq<char>) -> Option<int>
    decreases members.len(),
{
    if members.len() == 0 {
        None
    } else if members[0].key@ == key {
        Some(0)
    } else {
        match member_index(members.drop_first(), key) {
            Some(i) => Some(i + 1),
            None => None,
        }
    }
}

impl JsonValue {
    /// The member of this object under `key`: the first one, should the key
    /// occur more than once. Anything but an object has no members.
    pub open spec fn member(&self, key: Seq<char>) -> Option<JsonValue> {
        match self {
            JsonValue::Object(members) => match member_index(members@, key) {
                Some(i) => Some(members@[i].value),
                None => None,
            },
            _ => None,
        }
    }

    /// This value as an unsigned 64-bit integer, if it is a non-negative
    /// integer in that range.
    pub open spec fn unsigned(&self) -> Option<u64> {
        match self {
            JsonValue::Number(JsonNumber::Unsigned(n)) => Some(*n),
            _ => None,
        }
    }

    /// The member of this object under `key`, if it is an object with one.
    pub fn get(&self, key: &str) -> (found: Option<&JsonValue>)
        ensures
            match found {
                Some(value) => self.member(key@) == Some(*value),
                None => self.member(key@) is None,
            },
    {
        match self {
            JsonValue::Object(members) => {
                let mut i: usize = 0;
                while i < members.len()
                    invariant
                        *self == JsonValue::Object(*members),
                        i <= members.len(),
                        member_index(members@.take(i as int), key@) is None,
                    decreases members.len() - i,
                {
                    if str_equal(members[i].key.as_str(), key) {
                        proof {
                            lemma_member_index_found(members@, key@, i as int);
                        }
                        return Some(&members[i].value);
                    }
                    proof {
                        lemma_member_index_extend(members@, key@, i as int);
                    }
                    i += 1;
                }
                assert(members@.take(i as int) =~= members@);
                None
            },
            _ => None,
        }
    }

    /// This value as an unsigned 64-bit integer, if it is one.
    pub fn as_u64(&self) -> (number: Option<u64>)
        ensures
            number == self.unsigned(),
    {
        match self {
            JsonValue::Number(JsonNumber::Unsigned(n)) => Some(*n),
            _ => None,
        }
    }
}

/// Whether two texts hold the same characters.
fn str_equal(left: &str, right: &str) -> (equal: bool)
    ensures
        equal == (left@ == right@),
{
    let a = left.to_owned();
    let b = right.to_owned();
    a == b
}

/// Where no member before position `i` has the key and the one at `i` has
/// it, `i` is the index of the key.
proof fn lemma_member_index_found(members: Seq<JsonMember>, key: Seq<char>, i: int)
    requires
        0 <= i < members.len(),
        member_index(members.take(i), key) is None,
        members[i].key@ == key,
    ensures
        member_index(members, key) == Some(i),
    decreases i,
{
    if i > 0 {
        let shorter = members.take(i);
        assert(shorter[0] == members[0]);
        assert(shorter.drop_first() =~= members.drop_first().take(i - 1));
        assert(members.drop_first()[i - 1] == members[i]);
        lemma_member_index_found(members.drop_first(), key, i - 1);
    }
}

/// Where no member up to and including position `i` has the key, none of
/// the first `i + 1` has it.
proof fn lemma_member_index_extend(members: Seq<JsonMember>, key: Seq<char>, i: int)
    requires
        0 <= i < members.len(),
        member_index(members.take(i), key) is None,
        members[i].key@ != key,
    ensures
        member_index(members.take(i + 1), key) is None,
    decreases i,
{
    let longer = members.take(i + 1);
    if i == 0 {
        assert(longer[0] == members[0]);
        assert(longer.drop_first().len() == 0);
        assert(member_index(longer.drop_first(), key) is None);
    } else {
        let shorter = members.take(i);
        assert(shorter[0] == members[0]);
        assert(longer[0] == members[0]);
        assert(shorter.drop_first() =~= members.drop_first().take(i - 1));
        assert(longer.drop_first() =~= members.drop_first().take(i));
        assert(members.drop_first()[i - 1] == members[i]);
        lemma_member_index_extend(members.drop_first(), key, i - 1);
    }
}

} // verus!
