//! `explain`: which guide pages a topic shows, and how a page's lines are
//! laid out.
use vstd::prelude::*;
use crate::text::{chars_of, has_prefix, lines, lines_of, slice_of, string_of, strip_prefix, views};

verus! {

/// The pages of the built-in guide.
#[derive(Clone, Copy, PartialEq, Eq, Structural, Debug)]
pub enum Page {
    Overview,
    Topics,
    Workflow,
    Structure,
    Components,
    Clusters,
    Build,
    Bootstrap,
    Gitops,
}

/// Where each page's markdown lives, relative to the guide's directory.
pub open spec fn page_file(p: Page) -> Seq<char> {
    match p {
        Page::Overview => "overview.md"@,
        Page::Topics => "topics.md"@,
        Page::Workflow => "workflow.md"@,
        Page::Structure => "structure.md"@,
        Page::Components => "components.md"@,
        Page::Clusters => "clusters.md"@,
        Page::Build => "build.md"@,
        Page::Bootstrap => "bootstrap.md"@,
        Page::Gitops => "gitops.md"@,
    }
}

impl Page {
    /// The page's file name.
    pub fn file(&self) -> (f: &'static str)
        ensures
            f@ == page_file(*self),
    {
        match self {
            Page::Overview => "overview.md",
            Page::Topics => "topics.md",
            Page::Workflow => "workflow.md",
            Page::Structure => "structure.md",
            Page::Components => "components.md",
            Page::Clusters => "clusters.md",
            Page::Build => "build.md",
            Page::Bootstrap => "bootstrap.md",
            Page::Gitops => "gitops.md",
        }
    }
}

/// The page a topic name selects, if it names one.
pub open spec fn topic_page(t: Seq<char>) -> Option<Page> {
    if t == "workflow"@ {
        Some(Page::Workflow)
    } else if t == "structure"@ {
        Some(Page::Structure)
    } else if t == "components"@ {
        Some(Page::Components)
    } else if t == "clusters"@ {
        Some(Page::Clusters)
    } else if t == "build"@ {
        Some(Page::Build)
    } else if t == "bootstrap"@ {
        Some(Page::Bootstrap)
    } else if t == "gitops"@ {
        Some(Page::Gitops)
    } else {
        None
    }
}

/// What `explain` shows: with no topic, the overview and the list of
/// topics; for a known topic, its page; for another, a note that the topic
/// is unknown and the list of topics.
pub struct Explanation {
    pub unknown_topic: Option<String>,
    pub pages: Vec<Page>,
}

pub open spec fn spec_explain(topic: Option<Seq<char>>) -> (Option<Seq<char>>, Seq<Page>) {
    match topic {
        None => (None, seq![Page::Overview, Page::Topics]),
        Some(t) => match topic_page(t) {
            Some(p) => (None, seq![p]),
            None => (Some(t), seq![Page::Topics]),
        },
    }
}

fn is_topic(t: &Vec<char>, name: &str) -> (b: bool)
    ensures
        b == (t@ == name@),
{
    crate::text::same_chars(t, &chars_of(name))
}

/// Chooses what to show for a topic.
pub fn execute(topic: Option<&str>) -> (r: Explanation)
    ensures
        (
            match r.unknown_topic {
                Some(t) => Some(t@),
                None => None,
            },
            r.pages@,
        ) == spec_explain(
            match topic {
                Some(t) => Some(t@),
                None => None,
            },
        ),
{
    match topic {
        None => {
            let mut pages: Vec<Page> = Vec::new();
            pages.push(Page::Overview);
            pages.push(Page::Topics);
            assert(pages@ =~= seq![Page::Overview, Page::Topics]);
            Explanation { unknown_topic: None, pages }
        },
        Some(name) => {
            let t = chars_of(name);
            let page = if is_topic(&t, "workflow") {
                Some(Page::Workflow)
            } else if is_topic(&t, "structure") {
                Some(Page::Structure)
            } else if is_topic(&t, "components") {
                Some(Page::Components)
            } else if is_topic(&t, "clusters") {
                Some(Page::Clusters)
            } else if is_topic(&t, "build") {
                Some(Page::Build)
            } else if is_topic(&t, "bootstrap") {
                Some(Page::Bootstrap)
            } else if is_topic(&t, "gitops") {
                Some(Page::Gitops)
            } else {
                None
            };
            let mut pages: Vec<Page> = Vec::new();
            match page {
                Some(p) => {
                    pages.push(p);
                    assert(pages@ =~= seq![p]);
                    Explanation { unknown_topic: None, pages }
                },
                None => {
                    pages.push(Page::Topics);
                    assert(pages@ =~= seq![Page::Topics]);
                    Explanation { unknown_topic: Some(String::from_str(name)), pages }
                },
            }
        },
    }
}

// ───────────────────────────── rendering ─────────────────────────────

/// A line of a page as shown: a heading, an empty line, or text.
pub enum PageLine {
    Heading(String),
    Blank,
    Text(String),
}

pub enum PageLineView {
    Heading(Seq<char>),
    Blank,
    Text(Seq<char>),
}

impl View for PageLine {
    type V = PageLineView;

    open spec fn view(&self) -> PageLineView {
        match self {
            PageLine::Heading(h) => PageLineView::Heading(h@),
            PageLine::Blank => PageLineView::Blank,
            PageLine::Text(t) => PageLineView::Text(t@),
        }
    }
}

pub open spec fn page_line_views(v: Seq<PageLine>) -> Seq<PageLineView> {
    v.map_values(|l: PageLine| l@)
}

/// A markdown line: `# ` opens a heading; an empty line stays empty.
pub open spec fn shown_line(l: Seq<char>) -> PageLineView {
    match strip_prefix(l, "# "@) {
        Some(h) => PageLineView::Heading(h),
        None => if l.len() == 0 {
            PageLineView::Blank
        } else {
            PageLineView::Text(l)
        },
    }
}

/// A page as shown: each of its lines, then an empty line.
pub open spec fn spec_render(markdown: Seq<char>) -> Seq<PageLineView> {
    lines(markdown).map_values(|l: Seq<char>| shown_line(l)).push(PageLineView::Blank)
}

fn render_line(l: &Vec<char>) -> (r: PageLine)
    ensures
        r@ == shown_line(l@),
{
    let p = chars_of("# ");
    proof {
        reveal_strlit("# ");
    }
    if has_prefix(l, &p) {
        PageLine::Heading(string_of(&slice_of(l, 2, l.len())))
    } else if l.len() == 0 {
        PageLine::Blank
    } else {
        let mut c: Vec<char> = Vec::new();
        crate::text::append_chars(&mut c, l);
        PageLine::Text(string_of(&c))
    }
}

/// Lays out a markdown page.
pub fn render(markdown: &str) -> (r: Vec<PageLine>)
    ensures
        page_line_views(r@) == spec_render(markdown@),
{
    let ls = lines_of(&chars_of(markdown));
    let ghost lv = views(ls@);
    let mut out: Vec<PageLine> = Vec::new();
    let mut i: usize = 0;
    while i < ls.len()
        invariant
            i <= ls.len(),
            lv == views(ls@),
            lv == lines(markdown@),
            page_line_views(out@) == lv.take(i as int).map_values(|l: Seq<char>| shown_line(l)),
        decreases ls.len() - i,
    {
        let r = render_line(&ls[i]);
        let ghost before = page_line_views(out@);
        let ghost rv = r@;
        out.push(r);
        assert(page_line_views(out@) =~= before.push(rv));
        assert(lv.take(i + 1).map_values(|l: Seq<char>| shown_line(l)) =~= lv.take(i as int).map_values(
            |l: Seq<char>| shown_line(l),
        ).push(shown_line(lv[i as int])));
        i = i + 1;
    }
    assert(lv.take(ls.len() as int) =~= lv);
    let ghost before = page_line_views(out@);
    out.push(PageLine::Blank);
    assert(page_line_views(out@) =~= before.push(PageLineView::Blank));
    out
}

}
