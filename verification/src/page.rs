//! Pages of the site: which file answers a request, and the page that a
//! Markdown file is served as.

use crate::text::{digit, digits, str_eq};
use vstd::prelude::*;
use vstd::string::StringExecFns;

verus! {

/// What to do about a request for a page.
#[derive(Debug, Clone, Copy, PartialEq, Eq, Structural)]
pub enum PageAction {
    /// Find out whether the requested path is a file, and ask again.
    ProbeFile,
    /// Serve the requested file as it is.
    ServeFile,
    /// Find out whether the path with the extension `md` in place of its
    /// own is a file, and ask again.
    ProbeMarkdown,
    /// Render that Markdown file and serve the page.
    ServeMarkdown,
    /// Answer that there is no such page.
    NotFound,
}

/// What a request asks for, given what is known of the files so far. A file
/// at the requested path is served as it is. Failing that, a request for an
/// `html` page is answered from the Markdown file beside it, if there is
/// one. Anything else is not found.
pub open spec fn page_action(
    extension: Seq<char>,
    file: Option<bool>,
    markdown: Option<bool>,
) -> PageAction {
    match file {
        None => PageAction::ProbeFile,
        Some(true) => PageAction::ServeFile,
        Some(false) => if extension == "html"@ {
            match markdown {
                None => PageAction::ProbeMarkdown,
                Some(true) => PageAction::ServeMarkdown,
                Some(false) => PageAction::NotFound,
            }
        } else {
            PageAction::NotFound
        },
    }
}

/// Decides what to do about a request for the path with this extension.
/// `file` and `markdown` are the answers to the two probes, as far as they
/// have been made.
pub fn handle_page_request(extension: &str, file: Option<bool>, markdown: Option<bool>) -> (action:
    PageAction)
    ensures
        action == page_action(extension@, file, markdown),
{
    match file {
        None => PageAction::ProbeFile,
        Some(true) => PageAction::ServeFile,
        Some(false) => if str_eq(extension, "html") {
            match markdown {
                None => PageAction::ProbeMarkdown,
                Some(true) => PageAction::ServeMarkdown,
                Some(false) => PageAction::NotFound,
            }
        } else {
            PageAction::NotFound
        },
    }
}

/// The head of an answer: its status, and the kind of content it declares
/// in its `application-type` header.
#[derive(Debug, Clone, Copy, PartialEq, Eq)]
pub struct PageHeader {
    pub status: u16,
    pub application_type: &'static str,
}

/// The status that an action answers with; none while it still probes.
pub open spec fn status_of(action: PageAction) -> Option<u16> {
    match action {
        PageAction::ServeFile => Some(200u16),
        PageAction::ServeMarkdown => Some(200u16),
        PageAction::NotFound => Some(404u16),
        _ => None,
    }
}

/// The kind of content that an action declares; none while it still probes.
pub open spec fn application_type_of(action: PageAction) -> Option<Seq<char>> {
    match action {
        PageAction::ServeFile => Some("*/*"@),
        PageAction::ServeMarkdown => Some("text/html"@),
        PageAction::NotFound => Some("text"@),
        _ => None,
    }
}

impl PageAction {
    /// The head of the answer, where the action is one.
    pub fn header(&self) -> (header: Option<PageHeader>)
        ensures
            match header {
                Some(h) => status_of(*self) == Some(h.status) && application_type_of(*self)
                    == Some(h.application_type@),
                None => status_of(*self) is None && application_type_of(*self) is None,
            },
    {
        match self {
            PageAction::ServeFile => Some(PageHeader { status: 200, application_type: "*/*" }),
            PageAction::ServeMarkdown => Some(
                PageHeader { status: 200, application_type: "text/html" },
            ),
            PageAction::NotFound => Some(PageHeader { status: 404, application_type: "text" }),
            _ => None,
        }
    }
}

/// The body of the answer that there is no such page.
pub fn not_found_body() -> (body: &'static str)
    ensures
        body@ == "Could not find file"@,
{
    "Could not find file"
}

/// The title of a page: the stem of its file's name, or the name of the
/// site where the file has none.
pub fn page_title<'a>(stem: Option<&'a str>) -> (title: &'a str)
    ensures
        title@ == (match stem {
            Some(stem) => stem@,
            None => "thread.run"@,
        }),
{
    match stem {
        Some(stem) => stem,
        None => "thread.run",
    }
}

/// The whole milliseconds in a duration of `secs` seconds and
/// `subsec_nanos` nanoseconds.
pub fn as_ms(secs: u64, subsec_nanos: u32) -> (ms: u64)
    requires
        secs * 1000 + subsec_nanos / 1_000_000 <= u64::MAX,
    ensures
        ms == secs * 1000 + subsec_nanos / 1_000_000,
{
    secs * 1000 + (subsec_nanos / 1_000_000) as u64
}

/// A number in decimal, without leading zeros.
pub open spec fn decimal(n: nat) -> Seq<char>
    decreases n,
{
    if n < 10 {
        seq![digits()[n as int]]
    } else {
        decimal(n / 10).push(digits()[(n % 10) as int])
    }
}

/// A number in decimal, without leading zeros.
pub fn decimal_string(n: u64) -> (s: String)
    ensures
        s@ == decimal(n as nat),
    decreases n,
{
    if n < 10 {
        digit(n as u8).to_owned()
    } else {
        let mut s = decimal_string(n / 10);
        s.append(digit((n % 10) as u8));
        s
    }
}

/// The HTML that `comrak::markdown_to_html` renders a Markdown text to under
/// the default options.
pub uninterp spec fn markdown_html(markdown: Seq<char>) -> Seq<char>;

/// `comrak::markdown_to_html` with the default options. Unproved: the
/// result is the text named by `markdown_html`.
#[verifier::external_body]
fn markdown_to_html(markdown: &str) -> (html: String)
    ensures
        html@ == markdown_html(markdown@),
{
    comrak::markdown_to_html(markdown, &comrak::Options::default())
}

/// The contents of a Markdown file, rendered to HTML.
pub fn get_md_as_html(contents: &str) -> (html: String)
    ensures
        html@ == markdown_html(contents@),
{
    markdown_to_html(contents)
}

/// The page around a rendered body: the title in the head, the body, and a
/// closing remark on how long the page took to make and when it was made.
pub open spec fn page(title: Seq<char>, body: Seq<char>, elapsed_ms: u64, date: Seq<char>) -> Seq<
    char,
> {
    "\n<html>\n<head>\n    <title>"@ + title
        + "</title>\n    <meta charset=\"UTF-8\">\n    <link rel=\"stylesheet\" type=\"text/css\" href=\"/resources/styles.css\">\n</head>\n<body>\n    "@
        + body + "\n</body>\n<!-- Page constructed in "@ + decimal(elapsed_ms as nat) + "ms on "@
        + date + ". -->\n</html>\n"@
}

/// Lays out a page around a rendered body.
pub fn pretend_template(title: &str, content: &str, elapsed_ms: u64, date: &str) -> (html: String)
    ensures
        html@ == page(title@, content@, elapsed_ms, date@),
{
    let mut html = "\n<html>\n<head>\n    <title>".to_owned();
    html.append(title);
    html.append(
        "</title>\n    <meta charset=\"UTF-8\">\n    <link rel=\"stylesheet\" type=\"text/css\" href=\"/resources/styles.css\">\n</head>\n<body>\n    ",
    );
    html.append(content);
    html.append("\n</body>\n<!-- Page constructed in ");
    html.append(decimal_string(elapsed_ms).as_str());
    html.append("ms on ");
    html.append(date);
    html.append(". -->\n</html>\n");
    html
}

} // verus!
