use vstd::prelude::*;

verus! {

/// The operating system the application runs on.
#[derive(Clone, Copy, PartialEq, Eq, Structural, Debug)]
pub enum Os {
    Windows,
    MacOs,
    Linux,
    Other,
}

/// The CPU architecture the application runs on.
#[derive(Clone, Copy, PartialEq, Eq, Structural, Debug)]
pub enum Arch {
    X64,
    Arm64,
    Other,
}

/// The separator that joins path components on `os`.
pub open spec fn sep_char(os: Os) -> char {
    if os == Os::Windows { '\\' } else { '/' }
}

/// Whether `c` ends a path component on `os` (Windows accepts both slashes).
pub open spec fn is_sep(os: Os, c: char) -> bool {
    c == '/' || (os == Os::Windows && c == '\\')
}

/// `base` joined with the relative path `name`: a separator is put between
/// the two unless `base` is empty or already ends with one.
pub open spec fn join(os: Os, base: Seq<char>, name: Seq<char>) -> Seq<char> {
    if base.len() == 0 || is_sep(os, base.last()) {
        base + name
    } else {
        base + seq![sep_char(os)] + name
    }
}

/// Joins the relative path `name` onto `base`.
pub fn path_join(os: Os, base: &str, name: &str) -> (r: String)
    ensures
        r@ == join(os, base@, name@),
{
    let n = base.unicode_len();
    let mut r = String::from_str(base);
    if n == 0 {
        r.append(name);
        return r;
    }
    let last = base.get_char(n - 1);
    if last == '/' || (os == Os::Windows && last == '\\') {
        r.append(name);
    } else {
        if os == Os::Windows {
            r.append("\\");
        } else {
            r.append("/");
        }
        proof {
            reveal_strlit("\\");
            reveal_strlit("/");
        }
        r.append(name);
    }
    r
}

} // verus!
