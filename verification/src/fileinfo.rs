//! File-association metadata of a buffer: the path it was loaded from, if
//! any, and the short name shown for it.

use vstd::prelude::*;

verus! {

/// The longest suffix of a path that holds no separator: the file's own name.
pub open spec fn last_component(s: Seq<char>) -> Seq<char>
    decreases s.len(),
{
    if s.len() == 0 {
        s
    } else if s.last() == '/' {
        Seq::empty()
    } else {
        last_component(s.drop_last()).push(s.last())
    }
}

/// The name shown for a file: the path's last `/`-separated component, or a
/// placeholder when there is no path or the path ends in a separator.
pub open spec fn display_name_spec(f: FileInfo) -> Seq<char> {
    match f.path {
        Some(p) => if last_component(p@).len() > 0 {
            last_component(p@)
        } else {
            "[No Name]"@
        },
        None => "[No Name]"@,
    }
}

/// Where a buffer came from; absent for an untitled buffer.
pub struct FileInfo {
    pub path: Option<String>,
}

impl Default for FileInfo {
    /// An untitled buffer's metadata.
    fn default() -> (r: Self)
        ensures
            r.path is None,
    {
        FileInfo { path: None }
    }
}

/// After the final separator there is no further separator.
proof fn lemma_last_component_after_slash(s: Seq<char>, start: int)
    requires
        0 <= start <= s.len(),
        start == 0 || s[start - 1] == '/',
        forall|k: int| start <= k < s.len() ==> s[k] != '/',
    ensures
        last_component(s) == s.skip(start),
    decreases s.len(),
{
    if s.len() == 0 {
        assert(last_component(s) =~= s.skip(start));
    } else if start == s.len() {
        assert(s.last() == '/');
        assert(last_component(s) =~= s.skip(start));
    } else {
        assert(s.last() != '/');
        lemma_last_component_after_slash(s.drop_last(), start);
        assert(last_component(s.drop_last()).push(s.last()) =~= s.skip(start));
    }
}

impl FileInfo {
    /// Metadata for a buffer tied to the named file.
    pub fn from(file_name: &str) -> (r: FileInfo)
        ensures
            r.path is Some,
            r.path->0@ == file_name@,
    {
        FileInfo { path: Some(String::from_str(file_name)) }
    }

    /// The display name: the path's last `/`-separated component, or a
    /// placeholder when there is no path or the path ends in a separator.
    pub fn display_name(&self) -> (r: String)
        ensures
            r@ == display_name_spec(*self),
    {
        match &self.path {
            Some(p) => {
                let s = p.as_str();
                let n = s.unicode_len();
                let mut start: usize = 0;
                for i in 0..n
                    invariant
                        n == s@.len(),
                        0 <= start <= i,
                        start == 0 || s@[start - 1] == '/',
                        forall|k: int| start <= k < i ==> s@[k] != '/',
                {
                    if s.get_char(i) == '/' {
                        start = i + 1;
                    }
                }
                proof {
                    lemma_last_component_after_slash(s@, start as int);
                }
                if start < n {
                    String::from_str(s.substring_char(start, n))
                } else {
                    String::from_str("[No Name]")
                }
            },
            None => String::from_str("[No Name]"),
        }
    }
}

} // verus!
