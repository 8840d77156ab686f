//! Interactors that record what they are asked and answer from a prepared buffer.
use vstd::prelude::*;

use crate::interact::{Interact, OpenBrowserError, OpenEditor, OpenEditorError, OpenTextBrowser, OpenWebBrowser};

verus! {

/// Records opened URLs and answers editor requests from a buffer, in order.
#[derive(Debug)]
pub struct TestInteractor {
    editor_buffer: Vec<String>,
    browser_urls: Vec<String>,
}

/// The interactor of integration runs.
pub type Interactor = TestInteractor;

impl TestInteractor {
    /// The answers still prepared for the editor, in order.
    pub closed spec fn buffer_view(&self) -> Seq<String> {
        self.editor_buffer@
    }

    /// The URLs opened so far, in order.
    pub closed spec fn urls_view(&self) -> Seq<Seq<char>> {
        self.browser_urls@.map_values(|s: String| s@)
    }

    /// An interactor with no answer prepared and no URL opened.
    pub fn new() -> (i: TestInteractor)
        ensures
            i.buffer_view() == Seq::<String>::empty(),
            i.urls_view() == Seq::<Seq<char>>::empty(),
    {
        let i = TestInteractor { editor_buffer: Vec::new(), browser_urls: Vec::new() };
        assert(i.buffer_view() =~= Seq::<String>::empty());
        assert(i.urls_view() =~= Seq::<Seq<char>>::empty());
        i
    }

    /// The interactor with the given answers for the editor.
    pub fn with_buffer(self, editor_buffer: Vec<String>) -> (i: TestInteractor)
        ensures
            i.buffer_view() == editor_buffer@,
            i.urls_view() == self.urls_view(),
    {
        TestInteractor { editor_buffer, browser_urls: self.browser_urls }
    }

    /// Records an opened URL.
    pub fn open_browser(&mut self, url: &str)
        ensures
            final(self).urls_view() == old(self).urls_view().push(url@),
            final(self).buffer_view() == old(self).buffer_view(),
    {
        self.browser_urls.push(url.to_owned());
        assert(self.urls_view() =~= old(self).urls_view().push(url@));
    }

    /// The next prepared answer.
    pub fn open_editor(&mut self, _initial_content: &str) -> (s: String)
        requires
            old(self).buffer_view().len() > 0,
        ensures
            s == old(self).buffer_view()[0],
            final(self).buffer_view() == old(self).buffer_view().drop_first(),
            final(self).urls_view() == old(self).urls_view(),
    {
        self.editor_buffer.remove(0)
    }
}

/// The editor's answers come in the order they were prepared, whatever the initial
/// content: once `k` of the answers `v` are taken, the buffer holds the rest, the next
/// answer is `v[k]`, and after it the buffer holds the answers after `v[k]`.
pub proof fn lemma_test_answers_in_order(t: TestInteractor, v: Seq<String>, k: int)
    requires
        0 <= k < v.len(),
        t.buffer_view() == v.skip(k),
    ensures
        t.buffer_view().len() > 0,
        t.buffer_view()[0] == v[k],
        t.buffer_view().drop_first() == v.skip(k + 1),
{
    assert(v.skip(k).drop_first() =~= v.skip(k + 1));
}

/// Records opened URLs and answers editor requests from a buffer, through the
/// interaction traits.
#[derive(Debug)]
pub struct MockInteractor {
    editor_buffer: Vec<String>,
    browser_urls: Vec<String>,
}

impl MockInteractor {
    /// The answers still prepared for the editor, in order.
    pub closed spec fn buffer_view(&self) -> Seq<String> {
        self.editor_buffer@
    }

    /// The URLs opened so far, in order.
    pub closed spec fn urls_view(&self) -> Seq<Seq<char>> {
        self.browser_urls@.map_values(|s: String| s@)
    }

    /// An interactor with no answer prepared and no URL opened.
    pub fn new() -> (i: MockInteractor)
        ensures
            i.buffer_view() == Seq::<String>::empty(),
            i.urls_view() == Seq::<Seq<char>>::empty(),
    {
        let i = MockInteractor { editor_buffer: Vec::new(), browser_urls: Vec::new() };
        assert(i.buffer_view() =~= Seq::<String>::empty());
        assert(i.urls_view() =~= Seq::<Seq<char>>::empty());
        i
    }

    /// The interactor with the given answers for the editor.
    pub fn with_buffer(self, editor_buffer: Vec<String>) -> (i: MockInteractor)
        ensures
            i.buffer_view() == editor_buffer@,
            i.urls_view() == self.urls_view(),
    {
        MockInteractor { editor_buffer, browser_urls: self.browser_urls }
    }

    /// The URLs opened so far, in order.
    pub fn browser_urls(&self) -> (v: &[String])
        ensures
            v@.map_values(|s: String| s@) == self.urls_view(),
    {
        self.browser_urls.as_slice()
    }
}

/// The mock's answers come in the order they were prepared, whatever the initial
/// content: once `k` of the answers `v` are taken, the next call answers `v[k]` and the
/// buffer then holds the answers after it; once all are taken, the mock is no longer
/// ready to answer, so no call is admitted.
pub proof fn lemma_mock_answers_in_order(m: MockInteractor, v: Seq<String>, k: int)
    requires
        0 <= k <= v.len(),
        m.buffer_view() == v.skip(k),
    ensures
        k < v.len() ==> m.buffer_view().len() > 0 && m.buffer_view()[0] == v[k] && m.buffer_view().drop_first()
            == v.skip(k + 1),
        k == v.len() ==> m.buffer_view().len() == 0 && !m.editor_ready(),
{
    if k < v.len() {
        assert(v.skip(k).drop_first() =~= v.skip(k + 1));
    }
}

impl OpenWebBrowser for MockInteractor {
    fn open_browser(&mut self, url: &str) -> (r: Result<(), OpenBrowserError>)
        ensures
            r is Ok,
            final(self).urls_view() == old(self).urls_view().push(url@),
            final(self).buffer_view() == old(self).buffer_view(),
    {
        self.browser_urls.push(url.to_owned());
        assert(self.urls_view() =~= old(self).urls_view().push(url@));
        Ok(())
    }
}

impl OpenTextBrowser for MockInteractor {
    fn open_text_browser(&mut self, url: &str) -> (r: Result<(), OpenBrowserError>)
        ensures
            r is Ok,
            final(self).urls_view() == old(self).urls_view().push(url@),
            final(self).buffer_view() == old(self).buffer_view(),
    {
        self.browser_urls.push(url.to_owned());
        assert(self.urls_view() =~= old(self).urls_view().push(url@));
        Ok(())
    }
}

impl OpenEditor for MockInteractor {
    /// The mock can answer while an answer is prepared.
    open spec fn editor_ready(&self) -> bool {
        self.buffer_view().len() > 0
    }

    /// The next prepared answer.
    fn open_editor(&mut self, _initial_content: &str) -> (r: Result<String, OpenEditorError>)
        ensures
            r == Ok::<String, OpenEditorError>(old(self).buffer_view()[0]),
            final(self).buffer_view() == old(self).buffer_view().drop_first(),
            final(self).urls_view() == old(self).urls_view(),
    {
        Ok(self.editor_buffer.remove(0))
    }
}

impl Interact for MockInteractor {}

} // verus!
