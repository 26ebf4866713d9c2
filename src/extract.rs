//! Where each entry of a runtime archive is unpacked: every runtime archive
//! holds one top-level directory, which is stripped from every entry.
use vstd::prelude::*;
use crate::platform::{Os, join, path_join};
use crate::locator::strs_view;

verus! {

/// What to do with one archive entry.
pub enum EntryAction {
    /// Nothing is left of the entry once its top directory is stripped.
    Skip,
    /// Create this directory and its missing ancestors.
    CreateDir(String),
    /// Create the parent directory, then write the entry's contents here.
    WriteFile(String),
}

/// The meaning of an `EntryAction`, over path texts.
pub enum EntryStep {
    Skip,
    CreateDir(Seq<char>),
    WriteFile(Seq<char>),
}

impl View for EntryAction {
    type V = EntryStep;

    open spec fn view(&self) -> EntryStep {
        match self {
            EntryAction::Skip => EntryStep::Skip,
            EntryAction::CreateDir(p) => EntryStep::CreateDir(p@),
            EntryAction::WriteFile(p) => EntryStep::WriteFile(p@),
        }
    }
}

/// The action for an entry whose path, relative to the destination, is
/// `rel`: empty means nothing to do.
pub open spec fn step_for(os: Os, dest: Seq<char>, rel: Seq<char>, is_dir: bool) -> EntryStep {
    if rel.len() == 0 {
        EntryStep::Skip
    } else if is_dir {
        EntryStep::CreateDir(join(os, dest, rel))
    } else {
        EntryStep::WriteFile(join(os, dest, rel))
    }
}

fn action_for(os: Os, dest: &str, rel: &str, is_dir: bool) -> (r: EntryAction)
    ensures
        r@ == step_for(os, dest@, rel@, is_dir),
{
    if rel.unicode_len() == 0 {
        EntryAction::Skip
    } else if is_dir {
        EntryAction::CreateDir(path_join(os, dest, rel))
    } else {
        EntryAction::WriteFile(path_join(os, dest, rel))
    }
}

pub open spec fn has_no_slash(s: Seq<char>) -> bool {
    forall|i: int| 0 <= i < s.len() ==> #[trigger] s[i] != '/'
}

/// The first `/`-separated segment of `name`: the prefix before its first
/// `/`, or all of it.
pub open spec fn is_first_segment(seg: Seq<char>, name: Seq<char>) -> bool {
    &&& seg.is_prefix_of(name)
    &&& has_no_slash(seg)
    &&& (seg.len() == name.len() || name[seg.len() as int] == '/')
}

/// The top-level directory of a zip archive, from the name of its first
/// entry.
pub fn zip_top_dir(first_name: &str) -> (r: String)
    ensures
        is_first_segment(r@, first_name@),
{
    let n = first_name.unicode_len();
    let mut i: usize = 0;
    while i < n && first_name.get_char(i) != '/'
        invariant
            i <= n,
            n == first_name@.len(),
            has_no_slash(first_name@.subrange(0, i as int)),
        decreases n - i,
    {
        assert(first_name@.subrange(0, i + 1) =~= first_name@.subrange(0, i as int).push(first_name@[i as int]));
        i = i + 1;
    }
    let r = String::from_str(first_name.substring_char(0, i));
    assert(r@.is_prefix_of(first_name@)) by {
        assert(first_name@.subrange(0, r@.len() as int) =~= r@);
    }
    r
}

/// `s` without its leading `/` characters.
pub open spec fn trim_leading_slashes(s: Seq<char>) -> Seq<char>
    decreases s.len(),
{
    if s.len() > 0 && s[0] == '/' {
        trim_leading_slashes(s.drop_first())
    } else {
        s
    }
}

/// The path of a zip entry named `name` below the destination: when `top`
/// is not empty and begins the name, what follows it, without leading
/// slashes; otherwise the name itself.
pub open spec fn zip_relative(top: Seq<char>, name: Seq<char>) -> Seq<char> {
    if top.len() > 0 && top.is_prefix_of(name) {
        trim_leading_slashes(name.subrange(top.len() as int, name.len() as int))
    } else {
        name
    }
}

fn starts_with(s: &str, prefix: &str) -> (r: bool)
    ensures
        r == prefix@.is_prefix_of(s@),
{
    let n = s.unicode_len();
    let m = prefix.unicode_len();
    if m > n {
        return false;
    }
    let mut i: usize = 0;
    while i < m
        invariant
            i <= m <= n,
            n == s@.len(),
            m == prefix@.len(),
            forall|j: int| 0 <= j < i ==> prefix@[j] == s@[j],
        decreases m - i,
    {
        if prefix.get_char(i) != s.get_char(i) {
            return false;
        }
        i = i + 1;
    }
    assert(s@.subrange(0, m as int) =~= prefix@);
    true
}

/// The path of zip entry `name` below the destination, given the archive's
/// top directory `top`.
pub fn zip_relative_path(top: &str, name: &str) -> (r: String)
    ensures
        r@ == zip_relative(top@, name@),
{
    let m = top.unicode_len();
    if m == 0 || !starts_with(name, top) {
        return String::from_str(name);
    }
    let n = name.unicode_len();
    let mut i: usize = m;
    assert(name@.subrange(m as int, n as int) == name@.subrange(i as int, n as int));
    while i < n && name.get_char(i) == '/'
        invariant
            m <= i <= n,
            n == name@.len(),
            trim_leading_slashes(name@.subrange(m as int, n as int))
                == trim_leading_slashes(name@.subrange(i as int, n as int)),
        decreases n - i,
    {
        assert(name@.subrange(i as int, n as int).drop_first() =~= name@.subrange(i + 1, n as int));
        i = i + 1;
    }
    String::from_str(name.substring_char(i, n))
}

/// What to do with the zip entry `name` (a directory when `is_dir`) when
/// unpacking into `dest` an archive whose top directory is `top`.
pub fn zip_entry_action(os: Os, dest: &str, top: &str, name: &str, is_dir: bool) -> (r: EntryAction)
    ensures
        r@ == step_for(os, dest@, zip_relative(top@, name@), is_dir),
{
    let rel = zip_relative_path(top, name);
    action_for(os, dest, rel.as_str(), is_dir)
}

/// Path components joined with `/`.
pub open spec fn join_segments(s: Seq<Seq<char>>) -> Seq<char>
    decreases s.len(),
{
    if s.len() == 0 {
        Seq::empty()
    } else if s.len() == 1 {
        s[0]
    } else {
        join_segments(s.drop_last()) + "/"@ + s.last()
    }
}

/// The path of a tar entry below the destination, from the components of
/// its path: all but the first, or nothing when only one is there.
pub open spec fn tar_relative(components: Seq<Seq<char>>) -> Option<Seq<char>> {
    if components.len() <= 1 {
        None
    } else {
        Some(join_segments(components.subrange(1, components.len() as int)))
    }
}

/// The path of a tar entry below the destination, from the components of
/// its path.
pub fn tar_relative_path(components: &Vec<String>) -> (r: Option<String>)
    ensures
        match r {
            Some(p) => tar_relative(strs_view(*components)) == Some(p@),
            None => tar_relative(strs_view(*components)) is None,
        },
{
    let n = components.len();
    if n <= 1 {
        return None;
    }
    let ghost all = strs_view(*components);
    let mut r = components[1].clone();
    let mut i: usize = 2;
    assert(all.subrange(1, 2).drop_last() =~= Seq::<Seq<char>>::empty());
    while i < n
        invariant
            2 <= i <= n,
            n == components@.len(),
            all == strs_view(*components),
            r@ == join_segments(all.subrange(1, i as int)),
        decreases n - i,
    {
        proof {
            reveal_strlit("/");
        }
        r.append("/");
        r.append(components[i].as_str());
        assert(all.subrange(1, i + 1).drop_last() =~= all.subrange(1, i as int));
        i = i + 1;
    }
    Some(r)
}

/// What to do with a tar entry whose path has `components` (a directory
/// when `is_dir`) when unpacking into `dest`.
pub fn tar_entry_action(os: Os, dest: &str, components: &Vec<String>, is_dir: bool) -> (r: EntryAction)
    ensures
        r@ == match tar_relative(strs_view(*components)) {
            Some(rel) => step_for(os, dest@, rel, is_dir),
            None => EntryStep::Skip,
        },
{
    match tar_relative_path(components) {
        Some(rel) => action_for(os, dest, rel.as_str(), is_dir),
        None => EntryAction::Skip,
    }
}

/// In a zip archive whose entries all sit below one top directory, the first
/// entry names that directory, every entry loses exactly that one segment,
/// and the directory's own entry is skipped.
pub proof fn lemma_zip_strips_top_dir(os: Os, dest: Seq<char>, top: Seq<char>, rest: Seq<char>, is_dir: bool)
    requires
        top.len() > 0,
        has_no_slash(top),
        rest.len() == 0 || rest[0] != '/',
    ensures
        is_first_segment(top, top + seq!['/'] + rest),
        zip_relative(top, top + seq!['/'] + rest) == rest,
        zip_relative(top, top) == Seq::<char>::empty(),
        step_for(os, dest, zip_relative(top, top), is_dir) == EntryStep::Skip,
        step_for(os, dest, zip_relative(top, top + seq!['/']), is_dir) == EntryStep::Skip,
{
    let name = top + seq!['/'] + rest;
    assert(name.subrange(0, top.len() as int) =~= top);
    assert(name[top.len() as int] == '/');
    let tail = name.subrange(top.len() as int, name.len() as int);
    assert(tail.drop_first() =~= rest);
    assert(trim_leading_slashes(rest) == rest);
    assert(top.subrange(0, top.len() as int) =~= top);
    assert(top.subrange(top.len() as int, top.len() as int) =~= Seq::<char>::empty());
    let dir = top + seq!['/'];
    assert(dir.subrange(0, top.len() as int) =~= top);
    let dtail = dir.subrange(top.len() as int, dir.len() as int);
    assert(dtail.drop_first() =~= Seq::<char>::empty());
}

/// In a tar archive, an entry with a single component (the top directory
/// itself) is skipped, and every other entry loses exactly its first
/// component.
pub proof fn lemma_tar_strips_top_dir(top: Seq<char>, rest: Seq<Seq<char>>)
    ensures
        tar_relative(seq![top]) is None,
        rest.len() > 0 ==> tar_relative(seq![top] + rest) == Some(join_segments(rest)),
{
    let all = seq![top] + rest;
    assert(all.subrange(1, all.len() as int) =~= rest);
}

} // verus!
