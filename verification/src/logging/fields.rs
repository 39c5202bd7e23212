//! How a record's structured fields are written into one text.
use vstd::prelude::*;

use crate::log::field::LogField;
use crate::log::record::LogRecord;
use crate::text::{empty_string, push_char, push_str};

verus! {

broadcast use vstd::string::group_string_axioms;

/// `key=value` for one field.
pub open spec fn field_text(f: LogField) -> Seq<char> {
    f.key@ + seq!['='] + f.value@
}

/// The fields written as `key=value`, separated by `", "`.
pub open spec fn join_fields(fields: Seq<LogField>) -> Seq<char>
    decreases fields.len(),
{
    if fields.len() == 0 {
        Seq::<char>::empty()
    } else if fields.len() == 1 {
        field_text(fields[0])
    } else {
        join_fields(fields.drop_last()) + ", "@ + field_text(fields.last())
    }
}

/// Writes the structured fields of a record as `k1=v1, k2=v2, ...`; empty
/// when the record has no field.
pub fn format_fields(record: &LogRecord) -> (s: String)
    ensures
        s@ == join_fields(record.fields@),
{
    let mut s = empty_string();
    let n = record.fields.len();
    let mut i: usize = 0;
    while i < n
        invariant
            n == record.fields@.len(),
            i <= n,
            s@ == join_fields(record.fields@.subrange(0, i as int)),
        decreases n - i,
    {
        let ghost before = record.fields@.subrange(0, i as int);
        let field = &record.fields[i];
        if i > 0 {
            push_str(&mut s, ", ");
        }
        push_str(&mut s, field.key);
        push_char(&mut s, '=');
        push_str(&mut s, field.value.as_str());
        let ghost after = record.fields@.subrange(0, i + 1);
        assert(after.drop_last() =~= before);
        assert(after.last() == *field);
        if i == 0 {
            assert(s@ =~= field_text(*field));
        } else {
            assert(s@ =~= join_fields(before) + ", "@ + field_text(*field));
        }
        i = i + 1;
    }
    assert(record.fields@.subrange(0, n as int) =~= record.fields@);
    s
}

} // verus!
