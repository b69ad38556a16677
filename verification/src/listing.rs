//! What `conan profile list` and `conan remote list` print.

use crate::text::{lines, split_lines, split_words, words};
use vstd::prelude::*;

verus! {

/// A remote: a repository that Conan fetches packages from.
#[derive(Clone, Debug)]
pub struct Remote {
    pub name: String,
    pub url: String,
}

/// What a [`Remote`] holds.
pub struct RemoteView {
    pub name: Seq<char>,
    pub url: Seq<char>,
}

impl View for Remote {
    type V = RemoteView;

    open spec fn view(&self) -> RemoteView {
        RemoteView { name: self.name@, url: self.url@ }
    }
}

impl DeepView for Remote {
    type V = RemoteView;

    open spec fn deep_view(&self) -> RemoteView {
        self@
    }
}

/// Whether a word names a remote: it ends in a colon, and there is a name
/// before the colon.
pub open spec fn names_remote(word: Seq<char>) -> bool {
    word.len() >= 2 && word.last() == ':'
}

/// The place of the first word at or after `from` that names a remote and
/// has two words or more behind it: the URL, and something more.
pub open spec fn first_remote_word(words: Seq<Seq<char>>, from: int) -> Option<int>
    decreases words.len() - from,
{
    if from < 0 || from + 2 >= words.len() {
        None
    } else if names_remote(words[from]) {
        Some(from)
    } else {
        first_remote_word(words, from + 1)
    }
}

impl RemoteView {
    /// The remote that a line of `conan remote list` shows, such as
    /// `conan-center: https://conan.bintray.com [Verify SSL: True]`: the name
    /// is the first word that ends in a colon and is followed by two words or
    /// more, without its colon, and the URL is the word after it. A line
    /// without such a word shows no remote.
    pub open spec fn parse(line: Seq<char>) -> Option<RemoteView> {
        let words = words(line);
        match first_remote_word(words, 0) {
            Some(at) => Some(RemoteView { name: words[at].drop_last(), url: words[at + 1] }),
            None => None,
        }
    }

    /// The remote as text: the name, a colon, a space, and the URL.
    pub open spec fn text(self) -> Seq<char> {
        self.name + ": "@ + self.url
    }
}

/// The remotes that the lines show, in the order of the lines. A line that
/// shows none adds none.
pub open spec fn remotes_of(lines: Seq<Seq<char>>) -> Seq<RemoteView>
    decreases lines.len(),
{
    if lines.len() == 0 {
        Seq::empty()
    } else {
        let before = remotes_of(lines.drop_last());
        match RemoteView::parse(lines.last()) {
            Some(remote) => before.push(remote),
            None => before,
        }
    }
}

impl Remote {
    /// Reads the remote that a line of `conan remote list` shows. See
    /// [`RemoteView::parse`] for the lines that show one.
    pub fn parse(line: &str) -> (remote: Option<Remote>)
        ensures
            remote.deep_view() == RemoteView::parse(line@),
    {
        let found = split_words(line);
        let n = found.len();
        let mut at: usize = 0;
        while at < n && n - at > 2
            invariant
                at <= n == found.len(),
                found.deep_view() == words(line@),
                first_remote_word(words(line@), 0) == first_remote_word(words(line@), at as int),
            decreases n - at,
        {
            let word = found[at].as_str();
            assert(found.deep_view()[at as int] == word@);
            let len = word.unicode_len();
            if len >= 2 && word.get_char(len - 1) == ':' {
                let name = String::from_str(word.substring_char(0, len - 1));
                let url = found[at + 1].clone();
                assert(found.deep_view()[at + 1] == url@);
                assert(name@ =~= word@.drop_last());
                return Some(Remote { name, url });
            }
            at += 1;
        }
        None
    }

    /// The remote as text: the name, a colon, a space, and the URL.
    pub fn to_string(&self) -> (text: String)
        ensures
            text@ == self@.text(),
    {
        let mut text = self.name.clone();
        text.append(": ");
        text.append(self.url.as_str());
        text
    }
}

/// The profiles that `conan profile list` printed: one on each line of its
/// output.
pub fn get_profile_list(output: &str) -> (profiles: Vec<String>)
    ensures
        profiles.deep_view() == lines(output@),
{
    split_lines(output)
}

/// The remotes that `conan remote list` printed: one on each line of its
/// output that shows a remote, in the order of the lines.
pub fn get_remote_list(output: &str) -> (remotes: Vec<Remote>)
    ensures
        remotes.deep_view() == remotes_of(lines(output@)),
{
    let lines = split_lines(output);
    let mut remotes: Vec<Remote> = Vec::new();
    let mut i: usize = 0;
    assert(lines.deep_view().take(0) =~= Seq::<Seq<char>>::empty());
    assert(remotes.deep_view() =~= Seq::<RemoteView>::empty());
    while i < lines.len()
        invariant
            i <= lines.len(),
            remotes.deep_view() == remotes_of(lines.deep_view().take(i as int)),
        decreases lines.len() - i,
    {
        let ghost before = remotes.deep_view();
        let ghost longer = lines.deep_view().take(i + 1);
        assert(longer.drop_last() =~= lines.deep_view().take(i as int));
        assert(longer.last() == lines[i as int]@);
        if let Some(remote) = Remote::parse(lines[i].as_str()) {
            remotes.push(remote);
            assert(remotes.deep_view() =~= before.push(remote@));
        }
        i += 1;
    }
    assert(lines.deep_view().take(lines.len() as int) =~= lines.deep_view());
    remotes
}

} // verus!
