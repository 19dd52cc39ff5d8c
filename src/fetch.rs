//! The decisions of the cover-art fetch: which names already have an image,
//! what a downloaded image is called, and a dispatcher that never lets more
//! than a fixed number of fetches run at once.
use vstd::prelude::*;
use vstd::string::*;
use crate::text::{extension, extension_dot, find_last, last_index, lemma_last_index_bounds};

verus! {

/// The most fetches that may be in flight at the same time.
pub const MAX_IN_FLIGHT: usize = 5;

/// The extensions a cached cover image may have, in the order they are tried.
pub open spec fn image_extensions() -> Seq<Seq<char>> {
    seq!["webp"@, "jpg"@, "jpeg"@, "png"@]
}

/// The file name `<name>.<ext>`.
pub open spec fn image_file(name: Seq<char>, ext: Seq<char>) -> Seq<char> {
    name + "."@ + ext
}

/// Whether the listing holds a file named after `name` with one of the
/// recognised image extensions.
pub open spec fn has_image(files: Seq<Seq<char>>, name: Seq<char>) -> bool {
    exists|k: int| 0 <= k < image_extensions().len() && files.contains(#[trigger] image_file(name, image_extensions()[k]))
}

/// The characters of each string.
pub open spec fn texts(v: Seq<String>) -> Seq<Seq<char>> {
    v.map_values(|s: String| s@)
}

/// The extension of the last path segment of a URL.
pub open spec fn url_extension(url: Seq<char>) -> Option<Seq<char>> {
    extension(url.subrange(last_index(url, '/') + 1, url.len() as int))
}

/// The file name `<name>.<ext>`.
fn image_file_name(name: &str, ext: &str) -> (r: String)
    ensures
        r@ == image_file(name@, ext@),
{
    String::from_str(name).concat(".").concat(ext)
}

/// Whether `v` holds a string equal to `s`.
fn contains_text(v: &Vec<String>, s: &String) -> (r: bool)
    ensures
        r == texts(v@).contains(s@),
{
    let mut i: usize = 0;
    while i < v.len()
        invariant
            i <= v.len(),
            forall|j: int| 0 <= j < i ==> v@[j]@ != s@,
        decreases v.len() - i,
    {
        if v[i].eq(s) {
            assert(texts(v@)[i as int] == s@);
            return true;
        }
        i = i + 1;
    }
    false
}

/// Whether the directory listing `files` already holds a cover image for
/// `name`, under any of the recognised extensions.
pub fn image_exists(files: &Vec<String>, name: &str) -> (r: bool)
    ensures
        r == has_image(texts(files@), name@),
{
    let exts: [&str; 4] = ["webp", "jpg", "jpeg", "png"];
    let mut k: usize = 0;
    while k < 4
        invariant
            k <= 4,
            forall|j: int| 0 <= j < 4 ==> exts[j]@ == image_extensions()[j],
            forall|j: int| 0 <= j < k ==> !texts(files@).contains(#[trigger] image_file(name@, image_extensions()[j])),
        decreases 4 - k,
    {
        let candidate = image_file_name(name, exts[k]);
        if contains_text(files, &candidate) {
            assert(candidate@ == image_file(name@, image_extensions()[k as int]));
            return true;
        }
        k = k + 1;
    }
    false
}

/// The names, in input order, that have no cover image in the listing yet.
pub fn missing_images(names: &Vec<String>, files: &Vec<String>) -> (r: Vec<String>)
    ensures
        texts(r@) == texts(names@).filter(|n: Seq<char>| !has_image(texts(files@), n)),
{
    let ghost pred = |n: Seq<char>| !has_image(texts(files@), n);
    let mut out: Vec<String> = Vec::new();
    let mut i: usize = 0;
    while i < names.len()
        invariant
            i <= names.len(),
            pred == (|n: Seq<char>| !has_image(texts(files@), n)),
            texts(out@) == texts(names@).take(i as int).filter(pred),
        decreases names.len() - i,
    {
        let ghost before = out@;
        proof {
            reveal(Seq::filter);
            assert(texts(names@).take(i + 1).drop_last() =~= texts(names@).take(i as int));
            assert(texts(names@).take(i + 1).last() == names@[i as int]@);
        }
        if !image_exists(files, names[i].as_str()) {
            out.push(names[i].clone());
            assert(texts(out@) =~= texts(before).push(names@[i as int]@));
        } else {
            assert(texts(out@) =~= texts(before));
        }
        i = i + 1;
    }
    assert(texts(names@).take(names.len() as int) =~= texts(names@));
    out
}

/// The file name under which the image downloaded from `url` is stored for
/// `name`: `<name>.<ext>` with the URL's extension, or nothing where the URL
/// has none.
pub fn download_file_name(name: &str, url: &str) -> (r: Option<String>)
    ensures
        match url_extension(url@) {
            Some(ext) => r.is_some() && r.unwrap()@ == image_file(name@, ext),
            None => r.is_none(),
        },
{
    let n = url.unicode_len();
    proof {
        lemma_last_index_bounds(url@, '/');
    }
    let start: usize = match find_last(url, '/') {
        Some(i) => i + 1,
        None => 0,
    };
    let seg = url.substring_char(start, n);
    match extension_dot(seg) {
        Some(dot) => {
            let ext = seg.substring_char(dot + 1, seg.unicode_len());
            Some(image_file_name(name, ext))
        },
        None => None,
    }
}

/// Hands out fetches of a list of names in input order, never more than
/// `MAX_IN_FLIGHT` at a time, and records how each one ended.
pub struct FetchQueue {
    names: Vec<String>,
    next: usize,
    running: usize,
    fetched: Vec<String>,
    failed: Vec<(String, String)>,
}

impl FetchQueue {
    /// Every name to fetch, in dispatch order.
    pub closed spec fn queue(&self) -> Seq<Seq<char>> {
        texts(self.names@)
    }

    /// How many names have been handed out.
    pub closed spec fn dispatched(&self) -> nat {
        self.next as nat
    }

    /// How many handed-out fetches have not finished yet.
    pub closed spec fn in_flight(&self) -> nat {
        self.running as nat
    }

    /// The names whose fetch succeeded, in order of completion.
    pub closed spec fn fetched(&self) -> Seq<Seq<char>> {
        texts(self.fetched@)
    }

    /// The names whose fetch failed, with the reason, in order of completion.
    pub closed spec fn failed(&self) -> Seq<(Seq<char>, Seq<char>)> {
        self.failed@.map_values(|p: (String, String)| (p.0@, p.1@))
    }

    pub closed spec fn wf(&self) -> bool {
        &&& self.next <= self.names@.len()
        &&& self.running <= MAX_IN_FLIGHT
        &&& self.fetched@.len() + self.failed@.len() + self.running == self.next
    }

    /// A queue over `names` with nothing dispatched yet.
    pub fn new(names: Vec<String>) -> (r: Self)
        ensures
            r.wf(),
            r.queue() == texts(names@),
            r.dispatched() == 0,
            r.in_flight() == 0,
            r.fetched() == Seq::<Seq<char>>::empty(),
            r.failed() == Seq::<(Seq<char>, Seq<char>)>::empty(),
    {
        let r = FetchQueue { names, next: 0, running: 0, fetched: Vec::new(), failed: Vec::new() };
        assert(r.fetched() =~= Seq::<Seq<char>>::empty());
        assert(r.failed() =~= Seq::<(Seq<char>, Seq<char>)>::empty());
        r
    }

    /// The next name to fetch, when a slot is free and a name is left.
    pub fn start_next(&mut self) -> (r: Option<String>)
        requires
            old(self).wf(),
        ensures
            final(self).wf(),
            final(self).queue() == old(self).queue(),
            final(self).fetched() == old(self).fetched(),
            final(self).failed() == old(self).failed(),
            r.is_some() == (old(self).in_flight() < MAX_IN_FLIGHT && old(self).dispatched() < old(self).queue().len()),
            r.is_some() ==> r.unwrap()@ == old(self).queue()[old(self).dispatched() as int]
                && final(self).dispatched() == old(self).dispatched() + 1
                && final(self).in_flight() == old(self).in_flight() + 1,
            r.is_none() ==> final(self).dispatched() == old(self).dispatched()
                && final(self).in_flight() == old(self).in_flight(),
    {
        if self.running < MAX_IN_FLIGHT && self.next < self.names.len() {
            let name = self.names[self.next].clone();
            self.next = self.next + 1;
            self.running = self.running + 1;
            Some(name)
        } else {
            None
        }
    }

    /// Records that the fetch of `name` ended, with the reason where it failed.
    pub fn finish(&mut self, name: String, failure: Option<String>)
        requires
            old(self).wf(),
            old(self).in_flight() > 0,
        ensures
            final(self).wf(),
            final(self).queue() == old(self).queue(),
            final(self).dispatched() == old(self).dispatched(),
            final(self).in_flight() + 1 == old(self).in_flight(),
            failure.is_none() ==> final(self).fetched() == old(self).fetched().push(name@)
                && final(self).failed() == old(self).failed(),
            failure.is_some() ==> final(self).failed() == old(self).failed().push((name@, failure.unwrap()@))
                && final(self).fetched() == old(self).fetched(),
    {
        self.running = self.running - 1;
        match failure {
            None => {
                let ghost before = self.fetched@;
                self.fetched.push(name);
                assert(texts(self.fetched@) =~= texts(before).push(name@));
            },
            Some(reason) => {
                let ghost before = self.failed@;
                let ghost entry = (name@, reason@);
                self.failed.push((name, reason));
                assert(self.failed() =~= before.map_values(|p: (String, String)| (p.0@, p.1@)).push(entry));
            },
        }
    }

    /// How many fetches are running.
    pub fn in_flight_count(&self) -> (r: usize)
        ensures
            r == self.in_flight(),
    {
        self.running
    }

    /// Whether every name has been dispatched and every fetch has ended.
    pub fn is_done(&self) -> (r: bool)
        requires
            self.wf(),
        ensures
            r == (self.dispatched() == self.queue().len() && self.in_flight() == 0),
    {
        self.next == self.names.len() && self.running == 0
    }

    /// The names whose fetch succeeded.
    pub fn fetched_names(&self) -> (r: &Vec<String>)
        ensures
            texts(r@) == self.fetched(),
    {
        &self.fetched
    }

    /// The names whose fetch failed, with the reasons.
    pub fn failures(&self) -> (r: &Vec<(String, String)>)
        ensures
            r@.map_values(|p: (String, String)| (p.0@, p.1@)) == self.failed(),
    {
        &self.failed
    }
}

/// However the dispatcher is driven, no more than `MAX_IN_FLIGHT` fetches
/// are ever in flight, and every dispatched name has either ended or is
/// still running.
pub proof fn law_bounded_in_flight(q: FetchQueue)
    requires
        q.wf(),
    ensures
        q.in_flight() <= MAX_IN_FLIGHT,
        q.fetched().len() + q.failed().len() + q.in_flight() == q.dispatched(),
        q.dispatched() <= q.queue().len(),
{
}

} // verus!
