//! Text handed to the GStreamer pipeline parser.

use vstd::prelude::*;

use crate::text::push_char;

verus! {

/// One character of a path as written inside a double-quoted pipeline
/// string: backslashes and double quotes gain a leading backslash.
pub open spec fn escaped_char(c: char) -> Seq<char> {
    if c == '\\' {
        seq!['\\', '\\']
    } else if c == '"' {
        seq!['\\', '"']
    } else {
        seq![c]
    }
}

/// `path` with every backslash and double quote escaped.
pub open spec fn spec_escape_pipeline_path(path: Seq<char>) -> Seq<char>
    decreases path.len(),
{
    if path.len() == 0 {
        Seq::empty()
    } else {
        spec_escape_pipeline_path(path.drop_last()) + escaped_char(path.last())
    }
}

/// Escapes an output path for a double-quoted pipeline property.
pub fn escape_pipeline_path(path: &str) -> (escaped: String)
    ensures
        escaped@ == spec_escape_pipeline_path(path@),
{
    let mut escaped = String::new();
    for c in iter: path.chars()
        invariant
            iter.seq() == path@,
            escaped@ == spec_escape_pipeline_path(path@.take(iter.index() as int)),
    {
        proof {
            assert(path@.take(iter.index() + 1).drop_last() =~= path@.take(iter.index() as int));
        }
        let ghost before = escaped@;
        if c == '\\' || c == '"' {
            push_char(&mut escaped, '\\');
        }
        push_char(&mut escaped, c);
        assert(escaped@ =~= before + escaped_char(c));
    }
    assert(path@.take(path@.len() as int) =~= path@);
    escaped
}

} // verus!
