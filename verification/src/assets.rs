//! Asset-name handling: the pure part of building a resource map from a
//! directory listing. The host walks directories and loads files; splitting
//! a file name at its first dot and matching the extension happen here.

use vstd::prelude::*;

verus! {

/// Relies on str's PartialEq: two string slices compare equal exactly when
/// they hold the same bytes, hence the same characters.
#[verifier::external_body]
fn str_eq(a: &str, b: &str) -> (r: bool)
    ensures
        r == (a@ == b@),
{
    a == b
}

/// Whether the extension is one of the accepted ones.
pub fn check_extension(extension: &str, extensions: &[&str]) -> (r: bool)
    ensures
        r == exists|i: int| 0 <= i < extensions@.len() && extensions@[i]@ == extension@,
{
    let n = extensions.len();
    let mut i: usize = 0;
    while i < n
        invariant
            i <= n,
            n == extensions@.len(),
            forall|k: int| 0 <= k < i ==> extensions@[k]@ != extension@,
        decreases n - i,
    {
        let ext: &str = extensions[i];
        if str_eq(ext, extension) {
            return true;
        }
        i = i + 1;
    }
    false
}

/// Split a file name at its first dot into stem and extension; a name
/// without a dot has no extension and is rejected.
pub fn split_file_name(file_name: &str) -> (r: Option<(&str, &str)>)
    ensures
        match r {
            Some(parts) => exists|d: int|
                {
                    &&& 0 <= d < file_name@.len()
                    &&& file_name@[d] == '.'
                    &&& (forall|k: int| 0 <= k < d ==> file_name@[k] != '.')
                    &&& parts.0@ == file_name@.subrange(0, d)
                    &&& parts.1@ == file_name@.subrange(d + 1, file_name@.len() as int)
                },
            None => forall|k: int| 0 <= k < file_name@.len() ==> file_name@[k] != '.',
        },
{
    let n = file_name.unicode_len();
    let mut i: usize = 0;
    while i < n
        invariant
            i <= n,
            n == file_name@.len(),
            forall|k: int| 0 <= k < i ==> file_name@[k] != '.',
        decreases n - i,
    {
        let c = file_name.get_char(i);
        if c == '.' {
            let stem = file_name.substring_char(0, i);
            let ext = file_name.substring_char(i + 1, n);
            proof {
                assert(file_name@[i as int] == '.');
            }
            return Some((stem, ext));
        }
        i = i + 1;
    }
    None
}

} // verus!
