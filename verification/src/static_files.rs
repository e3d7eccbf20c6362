//! Static challenge files: where a challenge's description lies, where its
//! files go in the object store, and how the uploads are tallied.

use vstd::prelude::*;

use crate::paths::{joined_path, last_component, path_of, after_last_slash};
use crate::text::{chars_of, push_str, string_of, sub_chars};

verus! {

/// The path of a challenge's `chall.yaml`, inside its folder under the
/// challenges folder.
pub open spec fn spec_chall_yaml_path(chall_folder: Seq<char>, chall_folder_name: Seq<char>) -> Seq<char> {
    joined_path(seq![chall_folder, chall_folder_name, "chall.yaml"@])
}

pub fn chall_yaml_path(chall_folder: &str, chall_folder_name: &str) -> (r: String)
    ensures
        r@ == spec_chall_yaml_path(chall_folder@, chall_folder_name@),
{
    let parts: [&str; 3] = [chall_folder, chall_folder_name, "chall.yaml"];
    let r = path_of(parts.as_slice());
    assert(parts@.map_values(|p: &str| p@) =~= seq![chall_folder@, chall_folder_name@, "chall.yaml"@]);
    r
}

/// The text with every leading and trailing `c` taken off.
pub open spec fn trim_start_char(s: Seq<char>, c: char) -> Seq<char>
    decreases s.len(),
{
    if s.len() > 0 && s[0] == c {
        trim_start_char(s.drop_first(), c)
    } else {
        s
    }
}

pub open spec fn trim_end_char(s: Seq<char>, c: char) -> Seq<char>
    decreases s.len(),
{
    if s.len() > 0 && s.last() == c {
        trim_end_char(s.drop_last(), c)
    } else {
        s
    }
}

pub open spec fn trim_char(s: Seq<char>, c: char) -> Seq<char> {
    trim_end_char(trim_start_char(s, c), c)
}

/// Takes every leading and trailing `c` off a text, as `str::trim_matches`
/// does with a character.
pub fn trim_matches_char(s: &str, c: char) -> (r: String)
    ensures
        r@ == trim_char(s@, c),
{
    let chars = chars_of(s);
    let mut start: usize = 0;
    assert(s@.skip(0) =~= s@);
    while start < chars.len() && chars[start] == c
        invariant
            start <= chars@.len(),
            chars@ == s@,
            trim_start_char(s@, c) == trim_start_char(s@.skip(start as int), c),
        decreases chars@.len() - start,
    {
        assert(s@.skip(start as int).drop_first() =~= s@.skip(start + 1));
        start = start + 1;
    }
    assert(trim_start_char(s@, c) == s@.skip(start as int));
    let mut end: usize = chars.len();
    while end > start && chars[end - 1] == c
        invariant
            start <= end <= chars@.len(),
            chars@ == s@,
            trim_end_char(s@.skip(start as int), c) == trim_end_char(s@.subrange(start as int, end as int), c),
        decreases end,
    {
        assert(s@.subrange(start as int, end as int).drop_last() =~= s@.subrange(start as int, end - 1));
        end = end - 1;
    }
    assert(s@.skip(start as int) =~= s@.subrange(start as int, chars@.len() as int));
    let kept = sub_chars(chars.as_slice(), start, end);
    assert(trim_end_char(s@.subrange(start as int, end as int), c) == s@.subrange(start as int, end as int));
    string_of(kept.as_slice())
}

/// Where a challenge file goes in the object store: under the challenge's
/// name (stripped of slashes), by the file's own name.
pub open spec fn spec_s3_object_path(chall_name: Seq<char>, file_path: Seq<char>) -> Seq<char> {
    "/"@ + trim_char(chall_name, '/') + "/"@ + last_component(file_path)
}

pub fn s3_object_path(chall_name: &str, file_path: &str) -> (r: String)
    ensures
        r@ == spec_s3_object_path(chall_name@, file_path@),
{
    let mut out = string_of(chars_of("/").as_slice());
    let trimmed = trim_matches_char(chall_name, '/');
    push_str(&mut out, trimmed.as_str());
    push_str(&mut out, "/");
    let file_name = after_last_slash(file_path);
    push_str(&mut out, file_name.as_str());
    out
}

/// The files uploaded so far, and those that failed.
pub struct UploadTally {
    pub success: Vec<String>,
    pub failure: Vec<String>,
}

impl UploadTally {
    pub fn new() -> (r: UploadTally)
        ensures
            r.success@ == Seq::<String>::empty(),
            r.failure@ == Seq::<String>::empty(),
    {
        UploadTally { success: Vec::new(), failure: Vec::new() }
    }

    /// Files an upload by the status the object store answered with (none
    /// where the request failed): only 200 is a success.
    pub fn record(&mut self, file: String, http_status: Option<u16>)
        ensures
            http_status == Some(200u16) ==> final(self).success@ == old(self).success@.push(file)
                && final(self).failure@ == old(self).failure@,
            http_status != Some(200u16) ==> final(self).failure@ == old(self).failure@.push(file)
                && final(self).success@ == old(self).success@,
    {
        let ok = match http_status {
            Some(code) => code == 200,
            None => false,
        };
        if ok {
            self.success.push(file);
        } else {
            self.failure.push(file);
        }
    }

    /// The uploaded files if none failed, else the failed ones.
    pub fn finish(self) -> (r: Result<Vec<String>, Vec<String>>)
        ensures
            self.failure@.len() == 0 ==> (r matches Ok(s) && s@ == self.success@),
            self.failure@.len() > 0 ==> (r matches Err(f) && f@ == self.failure@),
    {
        if self.failure.len() == 0 {
            Ok(self.success)
        } else {
            Err(self.failure)
        }
    }
}

} // verus!
