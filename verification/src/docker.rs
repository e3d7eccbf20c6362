//! The decisions around the Docker daemon: image names, which folders hold a
//! challenge, how build and pull streams are judged, and which container runs
//! a challenge.

use vstd::prelude::*;

use crate::paths::{joined_path, path_of};
use crate::text::{chars_of, find_char, first_index_of, lemma_first_index_of, push_str, string_of, sub_chars};
use crate::yaml::value::str_eq;

verus! {

/// The path of a challenge image under a root (the challenges folder, or the
/// registry), with the challenge's folder and an optional inner folder pushed
/// onto it.
pub open spec fn spec_challenge_path(root: Seq<char>, chall_folder_name: Seq<char>, inner_path: Option<Seq<char>>) -> Seq<char> {
    match inner_path {
        Some(inner) => joined_path(seq![root, chall_folder_name, inner]),
        None => joined_path(seq![root, chall_folder_name]),
    }
}

pub open spec fn optional_text(o: Option<&str>) -> Option<Seq<char>> {
    match o {
        Some(t) => Some(t@),
        None => None,
    }
}

/// The build context, or the registry name, of a challenge image.
pub fn challenge_path(root: &str, chall_folder_name: &str, inner_path: Option<&str>) -> (r: String)
    ensures
        r@ == spec_challenge_path(root@, chall_folder_name@, optional_text(inner_path)),
{
    match inner_path {
        Some(inner) => {
            let parts: [&str; 3] = [root, chall_folder_name, inner];
            let r = path_of(parts.as_slice());
            assert(parts@.map_values(|p: &str| p@) =~= seq![root@, chall_folder_name@, inner@]);
            r
        },
        None => {
            let parts: [&str; 2] = [root, chall_folder_name];
            let r = path_of(parts.as_slice());
            assert(parts@.map_values(|p: &str| p@) =~= seq![root@, chall_folder_name@]);
            r
        },
    }
}

/// What a folder of the challenges folder holds, as read from the disk.
pub struct FolderListing {
    /// The folder's own name; none where the path has no final component.
    pub name: Option<String>,
    /// Whether the entry is a directory.
    pub is_dir: bool,
    /// The names of the entries inside it (read only for a directory).
    pub entries: Vec<String>,
}

/// How many entries of a listing are named `Dockerfile`.
pub open spec fn dockerfile_count(entries: Seq<String>) -> nat
    decreases entries.len(),
{
    if entries.len() == 0 {
        0
    } else {
        dockerfile_count(entries.drop_last()) + if entries.last()@ == "Dockerfile"@ { 1nat } else { 0nat }
    }
}

/// The challenge names found in the challenges folder: each directory's
/// name, once for each `Dockerfile` at its root, in the order the directory
/// was read. A read error, or a directory with a `Dockerfile` and no name,
/// stops the search with an error.
pub open spec fn spec_chall_folder_names(listing: Seq<Result<FolderListing, String>>) -> Result<Seq<Seq<char>>, Seq<char>>
    decreases listing.len(),
{
    if listing.len() == 0 {
        Ok(Seq::empty())
    } else {
        match spec_chall_folder_names(listing.drop_last()) {
            Err(e) => Err(e),
            Ok(names) => match listing.last() {
                Err(e) => Err(e@),
                Ok(folder) => if !folder.is_dir || dockerfile_count(folder.entries@) == 0 {
                    Ok(names)
                } else {
                    match folder.name {
                        None => Err("Error reading challenge name"@),
                        Some(n) => Ok(names + Seq::new(dockerfile_count(folder.entries@), |i: int| n@)),
                    }
                },
            },
        }
    }
}

fn count_dockerfiles(entries: &Vec<String>) -> (r: usize)
    ensures
        r == dockerfile_count(entries@),
{
    let mut count: usize = 0;
    let mut i: usize = 0;
    assert(entries@.take(0) =~= Seq::<String>::empty());
    while i < entries.len()
        invariant
            i <= entries@.len(),
            count == dockerfile_count(entries@.take(i as int)),
            count <= i,
        decreases entries@.len() - i,
    {
        assert(entries@.take(i + 1).drop_last() =~= entries@.take(i as int));
        if str_eq(entries[i].as_str(), "Dockerfile") {
            count = count + 1;
        }
        i = i + 1;
    }
    assert(entries@.take(entries@.len() as int) =~= entries@);
    count
}

pub open spec fn names_view(names: Seq<String>) -> Seq<Seq<char>> {
    names.map_values(|n: String| n@)
}

/// Once the search has stopped with an error, reading more of the listing
/// does not change it.
proof fn lemma_folder_error_stays(listing: Seq<Result<FolderListing, String>>, k: int)
    requires
        0 <= k <= listing.len(),
        spec_chall_folder_names(listing.take(k)) is Err,
    ensures
        spec_chall_folder_names(listing) == spec_chall_folder_names(listing.take(k)),
    decreases listing.len() - k,
{
    if k < listing.len() {
        assert(listing.take(k + 1).drop_last() =~= listing.take(k));
        lemma_folder_error_stays(listing, k + 1);
    } else {
        assert(listing.take(k) =~= listing);
    }
}

/// Finds the challenges of the challenges folder, from its listing.
pub fn fetch_chall_folder_names(listing: &Vec<Result<FolderListing, String>>) -> (r: Result<Vec<String>, String>)
    ensures
        match (r, spec_chall_folder_names(listing@)) {
            (Ok(names), Ok(expected)) => names_view(names@) == expected,
            (Err(e), Err(expected)) => e@ == expected,
            _ => false,
        },
{
    let mut names: Vec<String> = Vec::new();
    let mut i: usize = 0;
    assert(listing@.take(0) =~= Seq::<Result<FolderListing, String>>::empty());
    assert(names_view(names@) =~= Seq::<Seq<char>>::empty());
    while i < listing.len()
        invariant
            i <= listing@.len(),
            spec_chall_folder_names(listing@.take(i as int)) == Ok::<Seq<Seq<char>>, Seq<char>>(names_view(names@)),
        decreases listing@.len() - i,
    {
        let prefix = Ghost(listing@.take(i + 1));
        assert(prefix@.drop_last() =~= listing@.take(i as int));
        match &listing[i] {
            Err(e) => {
                let copy = e.clone();
                proof {
                    lemma_folder_error_stays(listing@, i + 1);
                }
                return Err(copy);
            },
            Ok(folder) => {
                if folder.is_dir {
                    let count = count_dockerfiles(&folder.entries);
                    if count > 0 {
                        match &folder.name {
                            None => {
                                proof {
                                    lemma_folder_error_stays(listing@, i + 1);
                                }
                                return Err(string_of(chars_of("Error reading challenge name").as_slice()));
                            },
                            Some(n) => {
                                let ghost before = names@;
                                let mut k: usize = 0;
                                while k < count
                                    invariant
                                        k <= count,
                                        names_view(names@) == names_view(before) + Seq::new(k as nat, |j: int| n@),
                                    decreases count - k,
                                {
                                    let ghost prev = names@;
                                    let copy = n.clone();
                                    assert(copy@ == n@);
                                    names.push(copy);
                                    assert(names_view(names@) =~= names_view(prev).push(n@));
                                    assert(Seq::new((k + 1) as nat, |j: int| n@) =~= Seq::new(k as nat, |j: int| n@).push(n@));
                                    assert(names_view(names@) =~= names_view(before) + Seq::new((k + 1) as nat, |j: int| n@));
                                    k = k + 1;
                                }
                            },
                        }
                    }
                }
            },
        }
        i = i + 1;
    }
    assert(listing@.take(listing@.len() as int) =~= listing@);
    Ok(names)
}

/// A piece of a build or pull stream from the Docker daemon.
pub enum StreamItem {
    /// Progress output.
    Update,
    /// The daemon reports an error, with its text.
    Error(String),
    /// The digest of the image.
    Digest,
    /// The status of a pull.
    PullStatus,
    /// The stream itself failed, with the error's text.
    Failed(String),
}

/// Whether a build goes on after a piece of its stream: a reported error or a
/// failed stream ends it with that error's text.
pub fn build_step(item: StreamItem) -> (r: Result<(), String>)
    ensures
        match item {
            StreamItem::Error(e) => r matches Err(t) && t@ == e@,
            StreamItem::Failed(e) => r matches Err(t) && t@ == e@,
            _ => r is Ok,
        },
{
    match item {
        StreamItem::Error(e) => Err(e),
        StreamItem::Failed(e) => Err(e),
        _ => Ok(()),
    }
}

/// Whether a pull goes on after a piece of its stream: an error the daemon
/// reports, or a failed stream, ends the pull with that error's text.
pub fn pull_step(item: StreamItem) -> (r: Result<(), String>)
    ensures
        match item {
            StreamItem::Error(e) => r matches Err(t) && t@ == e@,
            StreamItem::Failed(e) => r matches Err(t) && t@ == e@,
            _ => r is Ok,
        },
{
    match item {
        StreamItem::Error(e) => Err(e),
        StreamItem::Failed(e) => Err(e),
        _ => Ok(()),
    }
}

/// The image a challenge's container is started from: the registry, a `/`,
/// and the challenge's name.
pub open spec fn spec_container_image(reg_url: Seq<char>, container_name: Seq<char>) -> Seq<char> {
    reg_url + "/"@ + container_name
}

pub fn container_image(reg_url: &str, container_name: &str) -> (r: String)
    ensures
        r@ == spec_container_image(reg_url@, container_name@),
{
    let mut out = string_of(chars_of(reg_url).as_slice());
    push_str(&mut out, "/");
    push_str(&mut out, container_name);
    out
}

/// A container's image without its digest: what comes before its first `@`.
pub open spec fn without_digest(image: Seq<char>) -> Seq<char> {
    match first_index_of(image, '@') {
        Some(i) => image.take(i),
        None => image,
    }
}

/// Whether a container runs the challenge's image.
pub fn runs_image(container_image_text: &str, image: &str) -> (r: bool)
    ensures
        r == (without_digest(container_image_text@) == image@),
{
    let chars = chars_of(container_image_text);
    let name = match find_char(chars.as_slice(), '@') {
        Some(i) => {
            proof {
                lemma_first_index_of(chars@, '@');
            }
            let before = sub_chars(chars.as_slice(), 0, i);
            assert(before@ =~= container_image_text@.take(i as int));
            string_of(before.as_slice())
        },
        None => string_of(chars.as_slice()),
    };
    str_eq(name.as_str(), image)
}

/// The first of the containers (given by their images) that runs the
/// challenge's image.
pub fn find_container(container_images: &Vec<String>, reg_url: &str, container_name: &str) -> (r: Option<usize>)
    ensures
        match r {
            Some(i) => i < container_images@.len()
                && without_digest(container_images@[i as int]@) == spec_container_image(reg_url@, container_name@)
                && forall|j: int| 0 <= j < i ==> without_digest(#[trigger] container_images@[j]@) != spec_container_image(reg_url@, container_name@),
            None => forall|j: int| 0 <= j < container_images@.len() ==> without_digest(#[trigger] container_images@[j]@) != spec_container_image(reg_url@, container_name@),
        },
{
    let image = container_image(reg_url, container_name);
    let mut i: usize = 0;
    while i < container_images.len()
        invariant
            i <= container_images@.len(),
            image@ == spec_container_image(reg_url@, container_name@),
            forall|j: int| 0 <= j < i ==> without_digest(#[trigger] container_images@[j]@) != image@,
        decreases container_images@.len() - i,
    {
        if runs_image(container_images[i].as_str(), image.as_str()) {
            return Some(i);
        }
        i = i + 1;
    }
    None
}

/// An error reported while building, with the daemon's details.
#[derive(Debug)]
pub struct ResultBufferError {
    pub error_text: String,
    pub code: Option<i64>,
    pub detail_message: Option<String>,
}

impl ResultBufferError {
    /// The error an error report of a build gives: its text, with the code and
    /// message of its details where there are details.
    pub fn from_report(error: String, detail: Option<(Option<i64>, Option<String>)>) -> (r: ResultBufferError)
        ensures
            r.error_text == error,
            match detail {
                Some((code, message)) => r.code == code && r.detail_message == message,
                None => r.code is None && r.detail_message is None,
            },
    {
        match detail {
            Some((code, detail_message)) => ResultBufferError { error_text: error, code, detail_message },
            None => ResultBufferError { error_text: error, code: None, detail_message: None },
        }
    }
}

pub open spec fn error_view(e: ResultBufferError) -> (Seq<char>, Option<i64>, Option<Seq<char>>) {
    (e.error_text@, e.code, match e.detail_message {
        Some(m) => Some(m@),
        None => None,
    })
}

/// A report of the daemon while building: the image id, output, error with
/// its details (code and message), status and progress text it may carry.
pub struct BuildInfo {
    pub id: Option<String>,
    pub stream: Option<String>,
    pub error: Option<String>,
    pub error_detail: Option<(Option<i64>, Option<String>)>,
    pub status: Option<String>,
    pub progress: Option<String>,
}

/// What a build reported, gathered: its output, the image ids, the last
/// progress text, and the errors.
pub struct ResultBuffer {
    stream_output: Option<String>,
    id_list: Vec<String>,
    progress_string: Option<String>,
    error_list: Vec<ResultBufferError>,
}

pub struct ResultBufferView {
    pub stream_output: Option<Seq<char>>,
    pub id_list: Seq<Seq<char>>,
    pub progress_string: Option<Seq<char>>,
    pub errors: Seq<(Seq<char>, Option<i64>, Option<Seq<char>>)>,
}

pub open spec fn opt_text(o: Option<String>) -> Option<Seq<char>> {
    match o {
        Some(s) => Some(s@),
        None => None,
    }
}

impl View for ResultBuffer {
    type V = ResultBufferView;

    closed spec fn view(&self) -> ResultBufferView {
        ResultBufferView {
            stream_output: opt_text(self.stream_output),
            id_list: names_view(self.id_list@),
            progress_string: opt_text(self.progress_string),
            errors: self.error_list@.map_values(|e: ResultBufferError| error_view(e)),
        }
    }
}

/// The lines of a text, as `str::lines` gives them: split at line breaks,
/// without a last empty line, each without a trailing carriage return.
pub open spec fn text_lines(s: Seq<char>) -> Seq<Seq<char>> {
    let pieces = crate::text::split_on(s, '\n');
    let kept = if s.len() == 0 {
        Seq::empty()
    } else if s.last() == '\n' {
        pieces.drop_last()
    } else {
        pieces
    };
    kept.map_values(|line: Seq<char>| if line.len() > 0 && line.last() == '\r' { line.drop_last() } else { line })
}

/// The ids, the first alone and the others each after `, `, then `)`.
pub open spec fn id_text(ids: Seq<Seq<char>>) -> Seq<char> {
    if ids.len() == 0 {
        Seq::empty()
    } else {
        ids[0] + ids_after_first(ids.skip(1)) + ")"@
    }
}

pub open spec fn ids_after_first(ids: Seq<Seq<char>>) -> Seq<char>
    decreases ids.len(),
{
    if ids.len() == 0 {
        Seq::empty()
    } else {
        ids_after_first(ids.drop_last()) + ", "@ + ids.last()
    }
}

/// Each line, tab-indented, on a line of its own.
pub open spec fn indented_lines(lines: Seq<Seq<char>>) -> Seq<char>
    decreases lines.len(),
{
    if lines.len() == 0 {
        Seq::empty()
    } else {
        indented_lines(lines.drop_last()) + "\t"@ + lines.last() + "\n"@
    }
}

/// The report of a build, as `Display` writes it: only a build without
/// errors is reported.
pub open spec fn spec_build_report(b: ResultBufferView) -> Seq<char> {
    if b.errors.len() == 0 {
        "Build completed successfully. "@ + id_text(b.id_list) + "\n"@ + match b.stream_output {
            Some(stream) => "\nStream output:\n"@ + indented_lines(text_lines(stream)),
            None => Seq::empty(),
        }
    } else {
        Seq::empty()
    }
}

impl ResultBuffer {
    pub fn new() -> (r: ResultBuffer)
        ensures
            r@.stream_output is None,
            r@.id_list.len() == 0,
            r@.progress_string is None,
            r@.errors.len() == 0,
    {
        let r = ResultBuffer { stream_output: None, id_list: Vec::new(), progress_string: None, error_list: Vec::new() };
        assert(r@.id_list =~= Seq::<Seq<char>>::empty());
        r
    }

    /// Appends output of the build.
    pub fn stream_in(&mut self, new_data: &str)
        ensures
            final(self)@.stream_output == Some(match old(self)@.stream_output {
                Some(s) => s + new_data@,
                None => new_data@,
            }),
            final(self)@.id_list == old(self)@.id_list,
            final(self)@.progress_string == old(self)@.progress_string,
            final(self)@.errors == old(self)@.errors,
    {
        let updated = match self.stream_output.take() {
            Some(mut current) => {
                crate::text::push_str(&mut current, new_data);
                current
            },
            None => string_of(chars_of(new_data).as_slice()),
        };
        self.stream_output = Some(updated);
    }

    /// Records the id of a built image, if the report has one.
    pub fn image_id(&mut self, id: Option<String>)
        ensures
            final(self)@.id_list == match id {
                Some(i) => old(self)@.id_list.push(i@),
                None => old(self)@.id_list,
            },
            final(self)@.stream_output == old(self)@.stream_output,
            final(self)@.progress_string == old(self)@.progress_string,
            final(self)@.errors == old(self)@.errors,
    {
        if let Some(i) = id {
            let ghost before = self.id_list@;
            self.id_list.push(i);
            assert(names_view(self.id_list@) =~= names_view(before).push(self.id_list@.last()@));
        }
    }

    /// Records an error of the build, with its details where there are any.
    pub fn add_error(&mut self, error: String, detail: Option<(Option<i64>, Option<String>)>)
        ensures
            final(self)@.errors == old(self)@.errors.push((error@, match detail {
                Some((code, _)) => code,
                None => None,
            }, match detail {
                Some((_, Some(m))) => Some(m@),
                _ => None,
            })),
            final(self)@.stream_output == old(self)@.stream_output,
            final(self)@.id_list == old(self)@.id_list,
            final(self)@.progress_string == old(self)@.progress_string,
    {
        let e = ResultBufferError::from_report(error, detail);
        let ghost before = self.error_list@;
        self.error_list.push(e);
        assert(self.error_list@.map_values(|e: ResultBufferError| error_view(e))
            =~= before.map_values(|e: ResultBufferError| error_view(e)).push(error_view(e)));
    }

    /// Takes in a report of the daemon while building: its output is
    /// appended, its error (with the error's details) recorded, and its
    /// progress text kept as the latest. A report with an id or a status is
    /// not handled (the buffer stops on it).
    pub fn process_build_info(&mut self, build_info: BuildInfo)
        requires
            build_info.id is None,
            build_info.status is None,
        ensures
            final(self)@.stream_output == match build_info.stream {
                Some(data) => Some(match old(self)@.stream_output {
                    Some(s) => s + data@,
                    None => data@,
                }),
                None => old(self)@.stream_output,
            },
            final(self)@.errors == match build_info.error {
                Some(e) => old(self)@.errors.push((e@, match build_info.error_detail {
                    Some((code, _)) => code,
                    None => None,
                }, match build_info.error_detail {
                    Some((_, Some(m))) => Some(m@),
                    _ => None,
                })),
                None => old(self)@.errors,
            },
            final(self)@.progress_string == match build_info.progress {
                Some(p) => Some(p@),
                None => old(self)@.progress_string,
            },
            final(self)@.id_list == old(self)@.id_list,
    {
        let BuildInfo { id: _, stream, error, error_detail, status: _, progress } = build_info;
        if let Some(new_data) = stream {
            self.stream_in(new_data.as_str());
        }
        if let Some(e) = error {
            self.add_error(e, error_detail);
        }
        if let Some(p) = progress {
            self.update_progress_string(p);
        }
    }

    /// Records the latest progress text.
    pub fn update_progress_string(&mut self, progress: String)
        ensures
            final(self)@.progress_string == Some(progress@),
            final(self)@.stream_output == old(self)@.stream_output,
            final(self)@.id_list == old(self)@.id_list,
            final(self)@.errors == old(self)@.errors,
    {
        self.progress_string = Some(progress);
    }

    /// The progress text, if any.
    pub fn progress_string(&self) -> (r: Option<&String>)
        ensures
            match r {
                Some(s) => self@.progress_string == Some(s@),
                None => self@.progress_string is None,
            },
    {
        self.progress_string.as_ref()
    }
}

fn strip_cr(line: &String) -> (r: String)
    ensures
        r@ == (if line@.len() > 0 && line@.last() == '\r' { line@.drop_last() } else { line@ }),
{
    let chars = chars_of(line.as_str());
    let n = chars.len();
    if n > 0 && chars[n - 1] == '\r' {
        let kept = sub_chars(chars.as_slice(), 0, n - 1);
        assert(kept@ =~= line@.drop_last());
        string_of(kept.as_slice())
    } else {
        string_of(chars.as_slice())
    }
}

/// The lines of a text, as `str::lines` gives them.
pub fn lines_of(s: &str) -> (r: Vec<String>)
    ensures
        names_view(r@) == text_lines(s@),
{
    let chars = chars_of(s);
    let pieces = crate::text::split_char(s, '\n');
    let ghost piece_views = crate::text::texts_view(pieces@);
    let count: usize = if chars.len() == 0 {
        0
    } else if chars[chars.len() - 1] == '\n' {
        proof {
            assert(crate::text::split_on(s@, '\n').len() >= 1) by {
                lemma_split_nonempty(s@, '\n');
            }
        }
        pieces.len() - 1
    } else {
        pieces.len()
    };
    let ghost kept = if s@.len() == 0 {
        Seq::<Seq<char>>::empty()
    } else if s@.last() == '\n' {
        piece_views.drop_last()
    } else {
        piece_views
    };
    assert(kept.len() == count);
    let mut out: Vec<String> = Vec::new();
    let mut i: usize = 0;
    while i < count
        invariant
            i <= count,
            count <= pieces@.len(),
            kept.len() == count,
            forall|j: int| 0 <= j < count ==> kept[j] == (#[trigger] pieces@[j])@,
            out@.len() == i,
            forall|j: int| 0 <= j < i ==> (#[trigger] out@[j])@ == (if kept[j].len() > 0 && kept[j].last() == '\r' { kept[j].drop_last() } else { kept[j] }),
        decreases count - i,
    {
        out.push(strip_cr(&pieces[i]));
        i = i + 1;
    }
    assert(names_view(out@) =~= text_lines(s@));
    out
}

/// A split always gives at least one piece.
proof fn lemma_split_nonempty(s: Seq<char>, c: char)
    ensures
        crate::text::split_on(s, c).len() >= 1,
    decreases s.len(),
{
    match crate::text::first_index_of(s, c) {
        None => {},
        Some(i) => {
            if 0 <= i < s.len() {
                lemma_split_nonempty(s.skip(i + 1), c);
            }
        },
    }
}

impl ResultBuffer {
    /// The report of the build, as `Display` writes it.
    pub fn report(&self) -> (r: String)
        ensures
            r@ == spec_build_report(self@),
    {
        if self.error_list.len() > 0 {
            return String::new();
        }
        let mut out = string_of(chars_of("Build completed successfully. ").as_slice());
        let ghost ids = names_view(self.id_list@);
        if self.id_list.len() > 0 {
            push_str(&mut out, self.id_list[0].as_str());
            let ghost head = out@;
            let mut k: usize = 1;
            assert(ids.skip(1).take(0) =~= Seq::<Seq<char>>::empty());
            while k < self.id_list.len()
                invariant
                    1 <= k <= self.id_list@.len(),
                    ids == names_view(self.id_list@),
                    out@ == head + ids_after_first(ids.skip(1).take(k - 1)),
                decreases self.id_list@.len() - k,
            {
                push_str(&mut out, ", ");
                push_str(&mut out, self.id_list[k].as_str());
                assert(ids.skip(1).take(k as int).drop_last() =~= ids.skip(1).take(k - 1));
                k = k + 1;
            }
            assert(ids.skip(1).take(k - 1) =~= ids.skip(1));
            push_str(&mut out, ")");
        }
        push_str(&mut out, "\n");
        match &self.stream_output {
            Some(stream) => {
                push_str(&mut out, "\nStream output:\n");
                let lines = lines_of(stream.as_str());
                let ghost base = out@;
                let ghost line_views = names_view(lines@);
                let mut k: usize = 0;
                assert(line_views.take(0) =~= Seq::<Seq<char>>::empty());
                while k < lines.len()
                    invariant
                        k <= lines@.len(),
                        line_views == names_view(lines@),
                        out@ == base + indented_lines(line_views.take(k as int)),
                    decreases lines@.len() - k,
                {
                    push_str(&mut out, "\t");
                    push_str(&mut out, lines[k].as_str());
                    push_str(&mut out, "\n");
                    assert(line_views.take(k + 1).drop_last() =~= line_views.take(k as int));
                    k = k + 1;
                }
                assert(line_views.take(lines@.len() as int) =~= line_views);
            },
            None => {},
        }
        out
    }
}

/// Whether an entry of a listing is named `Dockerfile`.
pub open spec fn is_dockerfile(entry: String) -> bool {
    entry@ == "Dockerfile"@
}

/// The test that keeps the entries named `Dockerfile`.
pub open spec fn dockerfile_test() -> spec_fn(String) -> bool {
    |e: String| is_dockerfile(e)
}

/// The Dockerfiles counted in a listing are exactly its entries named
/// `Dockerfile`, wherever they stand: the count is that of the entries kept
/// by that test, it adds up over a split listing, and one such entry at any
/// position makes it at least one.
pub proof fn lemma_dockerfiles_counted_anywhere(entries: Seq<String>, more: Seq<String>, j: int)
    ensures
        dockerfile_count(entries) == entries.filter(dockerfile_test()).len(),
        dockerfile_count(entries + more) == dockerfile_count(entries) + dockerfile_count(more),
        0 <= j < entries.len() && is_dockerfile(entries[j]) ==> dockerfile_count(entries) >= 1,
    decreases entries.len() + more.len(),
{
    reveal(Seq::filter);
    if entries.len() > 0 {
        lemma_dockerfiles_counted_anywhere(entries.drop_last(), Seq::empty(), j);
        if 0 <= j < entries.len() - 1 {
            assert(entries.drop_last()[j] == entries[j]);
        }
        assert(entries.filter(dockerfile_test()) == if dockerfile_test()(entries.last()) {
            entries.drop_last().filter(dockerfile_test()).push(entries.last())
        } else {
            entries.drop_last().filter(dockerfile_test())
        });
    } else {
        assert(entries.filter(dockerfile_test()) == entries);
    }
    if more.len() == 0 {
        assert(entries + more =~= entries);
    } else {
        lemma_dockerfiles_counted_anywhere(entries, more.drop_last(), -1);
        assert((entries + more).drop_last() =~= entries + more.drop_last());
        assert((entries + more).last() == more.last());
    }
}

/// A listing without any entry named `Dockerfile` counts none.
proof fn lemma_no_dockerfile(entries: Seq<String>)
    requires
        forall|k: int| 0 <= k < entries.len() ==> !is_dockerfile(#[trigger] entries[k]),
    ensures
        dockerfile_count(entries) == 0,
    decreases entries.len(),
{
    if entries.len() > 0 {
        assert(!is_dockerfile(entries[entries.len() - 1]));
        assert forall|k: int| 0 <= k < entries.drop_last().len() implies !is_dockerfile(#[trigger] entries.drop_last()[k]) by {
            assert(entries.drop_last()[k] == entries[k]);
        }
        lemma_no_dockerfile(entries.drop_last());
    }
}

/// A directory whose listing holds a `Dockerfile` anywhere is a challenge:
/// the search, having found `names` before it, goes on to list the
/// directory's name right after them; a folder without one adds nothing.
pub proof fn lemma_directory_with_dockerfile_is_found(
    before: Seq<Result<FolderListing, String>>,
    folder: FolderListing,
    names: Seq<Seq<char>>,
    j: int,
)
    requires
        spec_chall_folder_names(before) == Ok::<Seq<Seq<char>>, Seq<char>>(names),
    ensures
        folder.is_dir && folder.name is Some && 0 <= j < folder.entries@.len() && is_dockerfile(folder.entries@[j])
            ==> (spec_chall_folder_names(before.push(Ok(folder))) matches Ok(found)
            && found.len() > names.len()
            && found.take(names.len() as int) == names
            && found[names.len() as int] == folder.name->0@),
        (forall|k: int| 0 <= k < folder.entries@.len() ==> !is_dockerfile(#[trigger] folder.entries@[k]))
            ==> spec_chall_folder_names(before.push(Ok(folder))) == Ok::<Seq<Seq<char>>, Seq<char>>(names),
{
    let listing = before.push(Ok(folder));
    assert(listing.drop_last() =~= before);
    lemma_dockerfiles_counted_anywhere(folder.entries@, Seq::empty(), j);
    if forall|k: int| 0 <= k < folder.entries@.len() ==> !is_dockerfile(#[trigger] folder.entries@[k]) {
        lemma_no_dockerfile(folder.entries@);
    }
    if folder.is_dir && folder.name is Some && 0 <= j < folder.entries@.len() && is_dockerfile(folder.entries@[j]) {
        let n = folder.name->0@;
        let found = names + Seq::new(dockerfile_count(folder.entries@), |i: int| n);
        assert(found.take(names.len() as int) =~= names);
        assert(found[names.len() as int] == n);
    }
}

} // verus!
