use vstd::prelude::*;
use vstd::string::StrSliceExecFns;

verus! {

/// Whether a file extension names the targeted image type: the letters
/// `png`, each in either case.
pub open spec fn is_target_extension(extension: Seq<char>) -> bool {
    &&& extension.len() == 3
    &&& (extension[0] == 'p' || extension[0] == 'P')
    &&& (extension[1] == 'n' || extension[1] == 'N')
    &&& (extension[2] == 'g' || extension[2] == 'G')
}

/// Decides whether a directory entry is taken into the batch, by its
/// extension; an entry without extension is not.
pub fn has_target_extension(extension: Option<&str>) -> (eligible: bool)
    ensures
        eligible == match extension {
            Some(text) => is_target_extension(text@),
            None => false,
        },
{
    match extension {
        None => false,
        Some(text) => {
            if text.unicode_len() != 3 {
                false
            } else {
                let first = text.get_char(0);
                let second = text.get_char(1);
                let third = text.get_char(2);
                (first == 'p' || first == 'P') && (second == 'n' || second == 'N') && (third == 'g'
                    || third == 'G')
            }
        },
    }
}

} // verus!
