//! Listing the spreadsheets of a Drive: the search query, the request for each
//! page, and what becomes of each response.
//!
//! The service answers a listing page by page. A page may carry a continuation
//! token; the next request hands it back, and the listing ends with the first
//! page that carries none. Fetching is left to the caller: `Listing::start`
//! gives the first request, and `Listing::receive` takes each response and
//! says what to do next.

use crate::error::ErrorView;
use crate::error::GsheetError;
use vstd::prelude::*;

verus! {

/// Selects the files whose type is a Google spreadsheet.
pub const SPREADSHEET_MIME_QUERY: &'static str =
    "mimeType='application/vnd.google-apps.spreadsheet'";

/// Opens the clause that restricts the listing to names holding a given text.
pub const NAME_CLAUSE_HEAD: &'static str = " and name contains '";

/// Closes that clause.
pub const NAME_CLAUSE_TAIL: &'static str = "'";

/// Encloses a text in a query.
pub const QUOTE: char = '\'';

/// Makes the character behind it stand for itself inside a quoted text.
pub const BACKSLASH: char = '\\';

/// The corpus searched: the user's own drive and every shared drive.
pub const ALL_DRIVES: &'static str = "allDrives";

/// One file of a listing, as far as the commands read it.
#[derive(Debug, Clone, PartialEq, Eq)]
pub struct DriveFile {
    pub name: Option<String>,
    pub id: Option<String>,
}

/// The mathematical value of a `DriveFile`.
pub struct DriveFileView {
    pub name: Option<Seq<char>>,
    pub id: Option<Seq<char>>,
}

impl View for DriveFile {
    type V = DriveFileView;

    open spec fn view(&self) -> DriveFileView {
        DriveFileView { name: self.name.deep_view(), id: self.id.deep_view() }
    }
}

impl DeepView for DriveFile {
    type V = DriveFileView;

    open spec fn deep_view(&self) -> DriveFileView {
        self@
    }
}

/// One page of a listing, as the service sends it.
#[derive(Debug, Clone, PartialEq, Eq)]
pub struct FileList {
    /// The files of this page; the service may leave the field out.
    pub files: Option<Vec<DriveFile>>,
    /// Present when more pages follow.
    pub next_page_token: Option<String>,
}

/// The mathematical value of a `FileList`.
pub struct FileListView {
    pub files: Option<Seq<DriveFileView>>,
    pub next_page_token: Option<Seq<char>>,
}

impl FileListView {
    /// The files that the page adds to a listing: none where the field is absent.
    pub open spec fn entries(self) -> Seq<DriveFileView> {
        match self.files {
            Some(files) => files,
            None => Seq::empty(),
        }
    }
}

impl View for FileList {
    type V = FileListView;

    open spec fn view(&self) -> FileListView {
        FileListView {
            files: self.files.deep_view(),
            next_page_token: self.next_page_token.deep_view(),
        }
    }
}

/// What the service answered to a request for a page: the page, or the reason
/// why the request failed.
pub open spec fn response_view(response: Result<FileList, String>) -> Result<
    FileListView,
    Seq<char>,
> {
    match response {
        Ok(page) => Ok(page@),
        Err(reason) => Err(reason@),
    }
}

/// The parameters of one request for a page of the listing.
#[derive(Debug, Clone, PartialEq, Eq)]
pub struct ListRequest {
    pub q: String,
    pub include_items_from_all_drives: bool,
    pub supports_all_drives: bool,
    pub corpora: String,
    pub page_token: Option<String>,
}

/// The mathematical value of a `ListRequest`.
pub struct ListRequestView {
    pub q: Seq<char>,
    pub include_items_from_all_drives: bool,
    pub supports_all_drives: bool,
    pub corpora: Seq<char>,
    pub page_token: Option<Seq<char>>,
}

impl View for ListRequest {
    type V = ListRequestView;

    open spec fn view(&self) -> ListRequestView {
        ListRequestView {
            q: self.q@,
            include_items_from_all_drives: self.include_items_from_all_drives,
            supports_all_drives: self.supports_all_drives,
            corpora: self.corpora@,
            page_token: self.page_token.deep_view(),
        }
    }
}

/// How a character is written inside a quoted text of a query: a quote
/// and a backslash behind a backslash, any other character as it is.
pub open spec fn escaped_char(c: char) -> Seq<char> {
    if c == QUOTE || c == BACKSLASH {
        seq![BACKSLASH, c]
    } else {
        seq![c]
    }
}

/// How `name` is written inside a quoted text of a query, character by
/// character.
pub open spec fn escaped(name: Seq<char>) -> Seq<char>
    decreases name.len(),
{
    if name.len() == 0 {
        Seq::empty()
    } else {
        escaped_char(name[0]) + escaped(name.drop_first())
    }
}

/// What the inside of a quoted text stands for: a backslash makes the
/// character behind it stand for itself, and every other character does so
/// anyway. `None` where the text holds a quote without a backslash before
/// it, which would close the quoted text early, or ends in a backslash that
/// has nothing behind it.
pub open spec fn quoted_value(text: Seq<char>) -> Option<Seq<char>>
    decreases text.len(),
{
    if text.len() == 0 {
        Some(Seq::empty())
    } else if text[0] == BACKSLASH {
        if text.len() == 1 {
            None
        } else {
            match quoted_value(text.skip(2)) {
                Some(rest) => Some(seq![text[1]] + rest),
                None => None,
            }
        }
    } else if text[0] == QUOTE {
        None
    } else {
        match quoted_value(text.drop_first()) {
            Some(rest) => Some(seq![text[0]] + rest),
            None => None,
        }
    }
}

/// The search query for spreadsheets whose name holds `name`; an empty `name`
/// selects every spreadsheet. The query has one clause on the name, whatever
/// the name holds: it stands between the quotes in its escaped form.
pub open spec fn spreadsheet_query(name: Seq<char>) -> Seq<char> {
    if name.len() == 0 {
        SPREADSHEET_MIME_QUERY@
    } else {
        SPREADSHEET_MIME_QUERY@ + NAME_CLAUSE_HEAD@ + escaped(name) + NAME_CLAUSE_TAIL@
    }
}

/// The request for the page that follows `page_token` (the first page where
/// there is none) of the listing selected by `query`: shared drives included.
pub open spec fn list_request(query: Seq<char>, page_token: Option<Seq<char>>) -> ListRequestView {
    ListRequestView {
        q: query,
        include_items_from_all_drives: true,
        supports_all_drives: true,
        corpora: ALL_DRIVES@,
        page_token,
    }
}

proof fn lemma_escaped_push(name: Seq<char>, c: char)
    ensures
        escaped(name.push(c)) == escaped(name) + escaped_char(c),
    decreases name.len(),
{
    if name.len() == 0 {
        assert(name.push(c).drop_first() =~= Seq::<char>::empty());
        assert(name =~= Seq::<char>::empty());
    } else {
        assert(name.push(c).drop_first() =~= name.drop_first().push(c));
        lemma_escaped_push(name.drop_first(), c);
    }
}

/// The escaped form of a name stands for the name, all of it and nothing
/// else: read as the inside of a quoted text, it gives the name back, so
/// that no quote of the name closes the quoted text and no part of the name
/// is read as a clause of its own.
pub proof fn lemma_escaped_name_is_read_whole(name: Seq<char>)
    ensures
        quoted_value(escaped(name)) == Some(name),
    decreases name.len(),
{
    if name.len() > 0 {
        let rest = name.drop_first();
        lemma_escaped_name_is_read_whole(rest);
        let text = escaped(name);
        if name[0] == QUOTE || name[0] == BACKSLASH {
            assert(text.skip(2) =~= escaped(rest));
        } else {
            assert(text.drop_first() =~= escaped(rest));
        }
    }
}

/// Writes `name` as it stands inside a quoted text of a query.
pub fn escape_name(name: &str) -> (text: String)
    ensures
        text@ == escaped(name@),
{
    let mut text = String::new();
    for c in it: name.chars()
        invariant
            it.seq() == name@,
            text@ == escaped(name@.take(it.index() as int)),
    {
        proof {
            let seen = name@.take(it.index() as int);
            assert(name@.take(it.index() + 1) =~= seen.push(c));
            lemma_escaped_push(seen, c);
        }
        if c == QUOTE || c == BACKSLASH {
            text.push(BACKSLASH);
        }
        text.push(c);
    }
    assert(name@.take(name@.len() as int) =~= name@);
    text
}

/// Builds the search query for spreadsheets whose name holds `name`.
pub fn build_query(name: &str) -> (query: String)
    ensures
        query@ == spreadsheet_query(name@),
{
    let mut query = String::from_str(SPREADSHEET_MIME_QUERY);
    if !name.is_empty() {
        let escaped_name = escape_name(name);
        query.append(NAME_CLAUSE_HEAD);
        query.append(escaped_name.as_str());
        query.append(NAME_CLAUSE_TAIL);
    }
    query
}

/// Builds the request for one page.
pub fn build_request(query: &String, page_token: Option<String>) -> (request: ListRequest)
    ensures
        request@ == list_request(query@, page_token.deep_view()),
{
    ListRequest {
        q: query.clone(),
        include_items_from_all_drives: true,
        supports_all_drives: true,
        corpora: String::from_str(ALL_DRIVES),
        page_token,
    }
}

/// A listing under way: its query, and the files of the pages received so far,
/// in the order in which they came.
#[derive(Debug, Clone, PartialEq, Eq)]
pub struct Listing {
    pub query: String,
    pub files: Vec<DriveFile>,
}

/// The mathematical value of a `Listing`.
pub struct ListingView {
    pub query: Seq<char>,
    pub files: Seq<DriveFileView>,
}

impl View for Listing {
    type V = ListingView;

    open spec fn view(&self) -> ListingView {
        ListingView { query: self.query@, files: self.files.deep_view() }
    }
}

/// What to do after a response.
#[derive(Debug, Clone, PartialEq, Eq)]
pub enum ListStep {
    /// More pages follow: send the request, and hand the response to the listing.
    Fetch(Listing, ListRequest),
    /// The listing is complete: these are its files.
    Done(Vec<DriveFile>),
    /// The request failed: the listing is given up, and no file is returned.
    Failed(GsheetError),
}

/// The mathematical value of a `ListStep`.
pub enum ListStepView {
    Fetch(ListingView, ListRequestView),
    Done(Seq<DriveFileView>),
    Failed(ErrorView),
}

impl View for ListStep {
    type V = ListStepView;

    open spec fn view(&self) -> ListStepView {
        match *self {
            ListStep::Fetch(listing, request) => ListStepView::Fetch(listing@, request@),
            ListStep::Done(files) => ListStepView::Done(files.deep_view()),
            ListStep::Failed(error) => ListStepView::Failed(error@),
        }
    }
}

/// The listing for `name` before any page has come.
pub open spec fn listing_start(name: Seq<char>) -> ListingView {
    ListingView { query: spreadsheet_query(name), files: Seq::empty() }
}

/// The step that a response leads to. A failure ends the listing and drops
/// what was collected. A page adds its files at the end; with a continuation
/// token the next page is asked for under that token, without one the listing
/// is complete.
pub open spec fn listing_step(
    listing: ListingView,
    response: Result<FileListView, Seq<char>>,
) -> ListStepView {
    match response {
        Err(reason) => ListStepView::Failed(ErrorView::DriveQueryFailed { reason }),
        Ok(page) => {
            let files = listing.files + page.entries();
            match page.next_page_token {
                Some(token) => ListStepView::Fetch(
                    ListingView { query: listing.query, files },
                    list_request(listing.query, Some(token)),
                ),
                None => ListStepView::Done(files),
            }
        },
    }
}

impl Listing {
    /// Begins the listing of the spreadsheets whose name holds `name`, and
    /// gives the request for its first page.
    pub fn start(name: &str) -> (begun: (Listing, ListRequest))
        ensures
            begun.0@ == listing_start(name@),
            begun.1@ == list_request(spreadsheet_query(name@), None),
    {
        let query = build_query(name);
        let request = build_request(&query, None);
        let listing = Listing { query, files: Vec::new() };
        assert(listing.files.deep_view() =~= Seq::empty());
        (listing, request)
    }

    /// Takes the response to the last request and says what to do next.
    pub fn receive(self, response: Result<FileList, String>) -> (step: ListStep)
        ensures
            step@ == listing_step(self@, response_view(response)),
    {
        match response {
            Err(reason) => ListStep::Failed(GsheetError::DriveQueryFailed { reason }),
            Ok(page) => {
                let ghost before = self.files.deep_view();
                let ghost added = page@.entries();
                let Listing { query, mut files } = self;
                let FileList { files: page_files, next_page_token } = page;
                match page_files {
                    Some(mut entries) => {
                        files.append(&mut entries);
                    },
                    None => {},
                }
                assert(files.deep_view() =~= before + added);
                match next_page_token {
                    Some(token) => {
                        let request = build_request(&query, Some(token));
                        ListStep::Fetch(Listing { query, files }, request)
                    },
                    None => ListStep::Done(files),
                }
            },
        }
    }
}

/// Where a listing stands after the responses `responses`, taken in order:
/// `None` while it still waits for a page, else its files or its failure.
/// Responses after the one that ended the listing are never asked for and
/// count for nothing.
pub open spec fn listing_outcome(
    listing: ListingView,
    responses: Seq<Result<FileListView, Seq<char>>>,
) -> Option<Result<Seq<DriveFileView>, ErrorView>>
    decreases responses.len(),
{
    if responses.len() == 0 {
        None
    } else {
        match listing_step(listing, responses[0]) {
            ListStepView::Fetch(next, _) => listing_outcome(next, responses.drop_first()),
            ListStepView::Done(files) => Some(Ok(files)),
            ListStepView::Failed(error) => Some(Err(error)),
        }
    }
}

/// The files of all the pages, page after page, each in its place in its page.
pub open spec fn all_entries(pages: Seq<FileListView>) -> Seq<DriveFileView> {
    pages.map_values(|page: FileListView| page.entries()).flatten()
}

/// The responses of a service that answers every request with the next page.
pub open spec fn answered(pages: Seq<FileListView>) -> Seq<Result<FileListView, Seq<char>>> {
    pages.map_values(|page: FileListView| Ok::<FileListView, Seq<char>>(page))
}

/// Pages as a service sends them for one listing: at least one, each but the
/// last with a continuation token, the last without.
pub open spec fn is_whole_listing(pages: Seq<FileListView>) -> bool {
    &&& pages.len() > 0
    &&& forall|i: int| 0 <= i < pages.len() - 1 ==> (#[trigger] pages[i]).next_page_token is Some
    &&& pages.last().next_page_token is None
}

/// The responses before the one at `k` are pages that each carry a
/// continuation token, so that the listing goes on to ask for that one.
pub open spec fn reaches(responses: Seq<Result<FileListView, Seq<char>>>, k: int) -> bool {
    &&& 0 <= k < responses.len()
    &&& forall|i: int|
        0 <= i < k ==> match #[trigger] responses[i] {
            Ok(page) => page.next_page_token is Some,
            Err(_) => false,
        }
}

proof fn lemma_whole_listing_from(listing: ListingView, pages: Seq<FileListView>)
    requires
        is_whole_listing(pages),
    ensures
        listing_outcome(listing, answered(pages)) == Some(
            Ok::<Seq<DriveFileView>, ErrorView>(listing.files + all_entries(pages)),
        ),
    decreases pages.len(),
{
    let first = pages[0];
    let rest = pages.drop_first();
    let per_page = pages.map_values(|page: FileListView| page.entries());
    assert(per_page.drop_first() =~= rest.map_values(|page: FileListView| page.entries()));
    if pages.len() == 1 {
        assert(all_entries(rest) =~= Seq::empty());
    } else {
        assert(answered(pages).drop_first() =~= answered(rest));
        let next = ListingView { query: listing.query, files: listing.files + first.entries() };
        lemma_whole_listing_from(next, rest);
        assert(next.files + all_entries(rest) =~= listing.files + all_entries(pages));
    }
}

proof fn lemma_failure_from(
    listing: ListingView,
    responses: Seq<Result<FileListView, Seq<char>>>,
    k: int,
)
    requires
        reaches(responses, k),
        responses[k] is Err,
    ensures
        listing_outcome(listing, responses) == Some(
            Err::<Seq<DriveFileView>, ErrorView>(
                ErrorView::DriveQueryFailed { reason: responses[k]->Err_0 },
            ),
        ),
    decreases k,
{
    if k > 0 {
        let rest = responses.drop_first();
        let page = responses[0]->Ok_0;
        let next = ListingView { query: listing.query, files: listing.files + page.entries() };
        lemma_failure_from(next, rest, k - 1);
    }
}

/// A listing returns the files of all its pages, in the order in which the
/// pages came and in the order that each page gives them, each file once:
/// whatever the name asked for, when the service answers with the pages
/// `pages`, the outcome is the concatenation of their files.
pub proof fn lemma_listing_returns_all_pages(name: Seq<char>, pages: Seq<FileListView>)
    requires
        is_whole_listing(pages),
    ensures
        listing_outcome(listing_start(name), answered(pages)) == Some(
            Ok::<Seq<DriveFileView>, ErrorView>(all_entries(pages)),
        ),
{
    lemma_whole_listing_from(listing_start(name), pages);
}

/// A listing that meets a failed request fails as a whole: when the response
/// at `k` is a failure and the listing gets as far as asking for it, the
/// outcome is that failure, and none of the files of the pages before it is
/// returned.
pub proof fn lemma_failed_page_fails_listing(
    name: Seq<char>,
    responses: Seq<Result<FileListView, Seq<char>>>,
    k: int,
)
    requires
        reaches(responses, k),
        responses[k] is Err,
    ensures
        listing_outcome(listing_start(name), responses) == Some(
            Err::<Seq<DriveFileView>, ErrorView>(
                ErrorView::DriveQueryFailed { reason: responses[k]->Err_0 },
            ),
        ),
{
    lemma_failure_from(listing_start(name), responses, k);
}

/// The first `n` of `responses`, where all of them are pages.
pub open spec fn first_pages(
    responses: Seq<Result<FileListView, Seq<char>>>,
    n: int,
) -> Seq<FileListView> {
    Seq::new(n as nat, |i: int| responses[i]->Ok_0)
}

proof fn lemma_returned_from(
    listing: ListingView,
    responses: Seq<Result<FileListView, Seq<char>>>,
    files: Seq<DriveFileView>,
) -> (n: int)
    requires
        listing_outcome(listing, responses) == Some(Ok::<Seq<DriveFileView>, ErrorView>(files)),
    ensures
        0 < n <= responses.len(),
        forall|i: int| 0 <= i < n ==> (#[trigger] responses[i]) is Ok,
        is_whole_listing(first_pages(responses, n)),
        files == listing.files + all_entries(first_pages(responses, n)),
    decreases responses.len(),
{
    let page = responses[0]->Ok_0;
    if page.next_page_token is None {
        let pages = first_pages(responses, 1);
        lemma_whole_listing_from(listing, pages);
        1
    } else {
        let rest = responses.drop_first();
        let next = ListingView { query: listing.query, files: listing.files + page.entries() };
        let m = lemma_returned_from(next, rest, files);
        let pages = first_pages(responses, m + 1);
        let later = first_pages(rest, m);
        assert forall|i: int| 0 <= i < m + 1 implies (#[trigger] responses[i]) is Ok by {
            if i > 0 {
                assert(rest[i - 1] == responses[i]);
            }
        }
        assert(is_whole_listing(pages)) by {
            assert forall|i: int| 0 <= i < pages.len() - 1 implies (#[trigger] pages[i]).next_page_token is Some by {
                if i > 0 {
                    assert(pages[i] == later[i - 1]);
                }
            }
        }
        let per_page = pages.map_values(|page: FileListView| page.entries());
        assert(per_page.drop_first() =~= later.map_values(|page: FileListView| page.entries()));
        m + 1
    }
}

/// A listing never returns a part of what the service sent: where it
/// returns files at all, every response up to the one that ended it was a
/// page, and the files are those of all these pages, in order.
pub proof fn lemma_returned_listing_is_whole(
    name: Seq<char>,
    responses: Seq<Result<FileListView, Seq<char>>>,
    files: Seq<DriveFileView>,
)
    requires
        listing_outcome(listing_start(name), responses) == Some(
            Ok::<Seq<DriveFileView>, ErrorView>(files),
        ),
    ensures
        exists|n: int|
            {
                &&& 0 < n <= responses.len()
                &&& forall|i: int| 0 <= i < n ==> (#[trigger] responses[i]) is Ok
                &&& is_whole_listing(#[trigger] first_pages(responses, n))
                &&& files == all_entries(first_pages(responses, n))
            },
{
    let n = lemma_returned_from(listing_start(name), responses, files);
    assert(listing_start(name).files + all_entries(first_pages(responses, n)) =~= all_entries(
        first_pages(responses, n),
    ));
}

} // verus!
