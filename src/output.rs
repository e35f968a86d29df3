use vstd::prelude::*;

verus! {

/// The text delivered for a document: the document itself to a file, the
/// document and one newline to standard output.
pub open spec fn delivered(document: Seq<char>, to_file: bool) -> Seq<char> {
    if to_file {
        document
    } else {
        document.push('\n')
    }
}

/// The text to write for a document, to a file or to standard output.
pub fn output_text(document: &str, to_file: bool) -> (r: String)
    ensures
        r@ == delivered(document@, to_file),
{
    let mut r = String::from_str(document);
    if !to_file {
        r.append("\n");
        proof {
            reveal_strlit("\n");
        }
    }
    r
}

/// A file holds the same text as standard output would, less the one
/// trailing newline.
pub proof fn lemma_file_matches_stdout(document: Seq<char>)
    ensures
        delivered(document, false) == delivered(document, true).push('\n'),
        delivered(document, true) == delivered(document, false).drop_last(),
{
    assert(delivered(document, false).drop_last() =~= document);
}

} // verus!
