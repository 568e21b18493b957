//! Markdown to HTML, with the extensions that the viewer turns on.

use vstd::prelude::*;
use vstd::string::*;

verus! {

/// The switches of the renderer that the viewer sets.
#[derive(Clone, Copy, Debug, PartialEq, Eq, Structural)]
pub struct RenderOptions {
    /// Struck-through text between tildes.
    pub strikethrough: bool,
    /// Tables.
    pub table: bool,
    /// Bare addresses become links.
    pub autolink: bool,
    /// Task lists with check boxes.
    pub tasklist: bool,
    /// Superscript between carets.
    pub superscript: bool,
    /// Footnotes.
    pub footnotes: bool,
    /// Description lists.
    pub description_lists: bool,
    /// Raw HTML and unsafe links are passed through.
    pub unsafe_html: bool,
    /// A line end in a paragraph becomes a line break.
    pub hardbreaks: bool,
}

/// The HTML that comrak's `markdown_to_html` renders `markdown` to, with
/// `options` set on comrak's default options.
pub uninterp spec fn rendered_html(markdown: Seq<char>, options: RenderOptions) -> Seq<char>;

/// The options of the viewer: every extension listed but superscript, raw
/// HTML passed through, line ends kept as breaks.
pub open spec fn viewer_render_options() -> RenderOptions {
    RenderOptions {
        strikethrough: true,
        table: true,
        autolink: true,
        tasklist: true,
        superscript: false,
        footnotes: true,
        description_lists: true,
        unsafe_html: true,
        hardbreaks: true,
    }
}

/// The options of the viewer.
pub fn viewer_options() -> (options: RenderOptions)
    ensures
        options == viewer_render_options(),
{
    RenderOptions {
        strikethrough: true,
        table: true,
        autolink: true,
        tasklist: true,
        superscript: false,
        footnotes: true,
        description_lists: true,
        unsafe_html: true,
        hardbreaks: true,
    }
}

/// Calls comrak's `markdown_to_html` with `options` set on its default
/// options. Trusted: the result is a function of the text and the options
/// alone, named `rendered_html`; nothing more is claimed of it.
#[verifier::external_body]
fn markdown_to_html(markdown: &str, options: &RenderOptions) -> (html: String)
    ensures
        html@ == rendered_html(markdown@, *options),
{
    let mut o = comrak::Options::default();
    o.extension.strikethrough = options.strikethrough;
    o.extension.table = options.table;
    o.extension.autolink = options.autolink;
    o.extension.tasklist = options.tasklist;
    o.extension.superscript = options.superscript;
    o.extension.footnotes = options.footnotes;
    o.extension.description_lists = options.description_lists;
    o.render.unsafe_ = options.unsafe_html;
    o.render.hardbreaks = options.hardbreaks;
    comrak::markdown_to_html(markdown, &o)
}

/// Renders the Markdown text `content` to HTML with `options`.
pub fn render_markdown(content: &str, options: &RenderOptions) -> (html: String)
    ensures
        html@ == rendered_html(content@, *options),
{
    markdown_to_html(content, options)
}

/// Renders the Markdown text `content` of a document to the HTML that the
/// viewer shows.
pub fn open_markdown(content: &str) -> (html: String)
    ensures
        html@ == rendered_html(content@, viewer_render_options()),
{
    let options = viewer_options();
    markdown_to_html(content, &options)
}

} // verus!
