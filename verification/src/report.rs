//! What the manager shows of itself: the lists of templates and of
//! repositories, and the overview, as lines of text with their styles.
//! Putting the lines on a screen is the caller's part.

use vstd::prelude::*;
use vstd::string::StringExecFns;
use crate::config::{strings_view, Repo, RepoView, Template, TemplateView};
use crate::text::join3;
use crate::manager::TemplateManager;

verus! {

/// How a piece of text is to be shown.
#[derive(Debug, Clone, Copy, PartialEq, Eq, Structural)]
pub enum Style {
    Plain,
    /// The title of a listing.
    Heading,
    /// The title of a part of the overview.
    Section,
    /// A name that should stand out.
    Strong,
    /// The mark of a template that is cached.
    Good,
    /// The mark of a template that is not cached.
    Bad,
}

/// A piece of text in one style.
#[derive(Debug, PartialEq, Eq)]
pub struct Span {
    pub text: String,
    pub style: Style,
}

/// What a `Span` is.
pub struct SpanView {
    pub text: Seq<char>,
    pub style: Style,
}

impl View for Span {
    type V = SpanView;

    open spec fn view(&self) -> SpanView {
        SpanView { text: self.text@, style: self.style }
    }
}

/// The views of the spans of a line, in order.
pub open spec fn line_view(line: Vec<Span>) -> Seq<SpanView> {
    line@.map_values(|s: Span| s@)
}

/// The views of a sequence of lines, in order.
pub open spec fn lines_view(lines: Seq<Vec<Span>>) -> Seq<Seq<SpanView>> {
    lines.map_values(|l: Vec<Span>| line_view(l))
}

/// A span of plain text.
pub open spec fn plain(text: Seq<char>) -> SpanView {
    SpanView { text, style: Style::Plain }
}

/// A span in a style.
pub open spec fn styled(text: Seq<char>, style: Style) -> SpanView {
    SpanView { text, style }
}

/// A line of plain text.
pub open spec fn plain_line(text: Seq<char>) -> Seq<SpanView> {
    seq![plain(text)]
}

/// A line that is a title.
pub open spec fn title_line(text: Seq<char>, style: Style) -> Seq<SpanView> {
    seq![styled(text, style)]
}

/// The digit that stands for a number below ten.
pub open spec fn digit(d: nat) -> Seq<char> {
    if d == 0 {
        "0"@
    } else if d == 1 {
        "1"@
    } else if d == 2 {
        "2"@
    } else if d == 3 {
        "3"@
    } else if d == 4 {
        "4"@
    } else if d == 5 {
        "5"@
    } else if d == 6 {
        "6"@
    } else if d == 7 {
        "7"@
    } else if d == 8 {
        "8"@
    } else {
        "9"@
    }
}

/// A number in decimal notation.
pub open spec fn decimal(n: nat) -> Seq<char>
    decreases n,
{
    if n < 10 {
        digit(n)
    } else {
        decimal(n / 10) + digit(n % 10)
    }
}

/// The strings of `items` with `sep` between them.
pub open spec fn joined(items: Seq<Seq<char>>, sep: Seq<char>) -> Seq<char>
    decreases items.len(),
{
    if items.len() == 0 {
        Seq::empty()
    } else if items.len() == 1 {
        items[0]
    } else {
        joined(items.drop_last(), sep) + sep + items.last()
    }
}

/// Whether entry `i` is marked in `flags`; an entry without a flag is not.
pub open spec fn flagged(flags: Seq<bool>, i: int) -> bool {
    0 <= i < flags.len() && flags[i]
}

/// The number of the first `n` entries that are marked in `flags`.
pub open spec fn count_flagged(flags: Seq<bool>, n: int) -> nat
    decreases n,
{
    if n <= 0 {
        0
    } else {
        count_flagged(flags, n - 1) + if flagged(flags, n - 1) {
            1nat
        } else {
            0nat
        }
    }
}

/// The mark of a template: one for a cached template, one for another.
pub open spec fn mark(cached: bool) -> SpanView {
    if cached {
        styled("\u{2705}"@, Style::Good)
    } else {
        styled("\u{274c}"@, Style::Bad)
    }
}

/// The line that names a template.
pub open spec fn template_head(t: TemplateView, cached: bool) -> Seq<SpanView> {
    seq![mark(cached), plain(" "@), styled(t.id, Style::Strong), plain(" - "@ + t.name)]
}

/// The lines that describe a template, each after `lead`, and an empty line.
pub open spec fn template_details(lead: Seq<char>, t: TemplateView) -> Seq<Seq<SpanView>> {
    seq![
        plain_line(lead + "Description: "@ + t.description),
        plain_line(lead + "Language: "@ + t.language),
        plain_line(lead + "Repository: "@ + t.repo),
        plain_line(lead + "Path: "@ + t.path),
        plain_line(lead + "Tags: "@ + joined(t.tags, ", "@)),
        plain_line(Seq::empty()),
    ]
}

/// The lines of one template in the list of templates.
pub open spec fn listed_template(t: TemplateView, cached: bool, verbose: bool) -> Seq<
    Seq<SpanView>,
> {
    if verbose {
        seq![template_head(t, cached)] + template_details("   "@, t)
    } else {
        seq![
            seq![
                mark(cached),
                plain(" "@),
                styled(t.id, Style::Strong),
                plain(" - "@ + t.name + " ("@ + t.language + ")"@),
            ],
        ]
    }
}

/// The lines of the first `n` templates in the list of templates.
pub open spec fn listed_templates(
    templates: Seq<TemplateView>,
    cached: Seq<bool>,
    verbose: bool,
    n: int,
) -> Seq<Seq<SpanView>>
    decreases n,
{
    if n <= 0 {
        Seq::empty()
    } else {
        listed_templates(templates, cached, verbose, n - 1) + listed_template(
            templates[n - 1],
            flagged(cached, n - 1),
            verbose,
        )
    }
}

/// The list of templates.
pub open spec fn template_list(templates: Seq<TemplateView>, cached: Seq<bool>, verbose: bool) -> Seq<
    Seq<SpanView>,
> {
    let top = seq![
        title_line(
            if verbose {
                "\u{1f4cb} Available Templates"@
            } else {
                "\u{1f4cb} Template List"@
            },
            Style::Heading,
        ),
        plain_line(Seq::empty()),
    ];
    if templates.len() == 0 {
        top + seq![plain_line("No templates available. Add templates first."@)]
    } else if verbose {
        top + listed_templates(templates, cached, verbose, templates.len() as int)
    } else {
        top + listed_templates(templates, cached, verbose, templates.len() as int) + seq![
            plain_line(Seq::empty()),
            plain_line("\u{1f4a1} Use --verbose to see detailed information"@),
        ]
    }
}

/// The lines of one repository in the list of repositories.
pub open spec fn listed_repo(r: RepoView) -> Seq<Seq<SpanView>> {
    seq![
        seq![styled(r.name, Style::Strong), plain(" - "@ + r.url)],
        plain_line("   \u{1fa90}Branch: "@ + r.branch),
        plain_line(Seq::empty()),
    ]
}

/// The lines of the first `n` repositories in the list of repositories.
pub open spec fn listed_repos(repos: Seq<RepoView>, n: int) -> Seq<Seq<SpanView>>
    decreases n,
{
    if n <= 0 {
        Seq::empty()
    } else {
        listed_repos(repos, n - 1) + listed_repo(repos[n - 1])
    }
}

/// The list of repositories.
pub open spec fn repo_list(repos: Seq<RepoView>) -> Seq<Seq<SpanView>> {
    let top = seq![
        title_line("\u{1f4e6} Configured Template Repositories"@, Style::Heading),
        plain_line(Seq::empty()),
    ];
    if repos.len() == 0 {
        top + seq![plain_line("No repositories configured. Add repositories first."@)]
    } else {
        top + listed_repos(repos, repos.len() as int)
    }
}

/// A span of text in a style.
pub fn span(text: String, style: Style) -> (r: Span)
    ensures
        r@ == styled(text@, style),
{
    Span { text, style }
}

/// A line of one span.
pub fn line_of(text: String, style: Style) -> (r: Vec<Span>)
    ensures
        line_view(r) == title_line(text@, style),
{
    let mut out: Vec<Span> = Vec::new();
    out.push(span(text, style));
    assert(line_view(out) =~= title_line(text@, style));
    out
}

/// A number in decimal notation.
pub fn decimal_of(n: usize) -> (r: String)
    ensures
        r@ == decimal(n as nat),
    decreases n,
{
    let last = match n % 10 {
        0 => "0",
        1 => "1",
        2 => "2",
        3 => "3",
        4 => "4",
        5 => "5",
        6 => "6",
        7 => "7",
        8 => "8",
        _ => "9",
    };
    if n < 10 {
        String::from_str(last)
    } else {
        decimal_of(n / 10).concat(last)
    }
}

/// The strings of `items` with `sep` between them.
pub fn join_with(items: &Vec<String>, sep: &str) -> (r: String)
    ensures
        r@ == joined(strings_view(items@), sep@),
{
    let mut out = String::new();
    let mut i: usize = 0;
    let ghost all = strings_view(items@);
    assert(all.take(0) =~= Seq::<Seq<char>>::empty());
    while i < items.len()
        invariant
            i <= items.len(),
            all == strings_view(items@),
            out@ == joined(all.take(i as int), sep@),
        decreases items.len() - i,
    {
        proof {
            let upto = all.take(i + 1);
            assert(upto.drop_last() =~= all.take(i as int));
            assert(upto.last() == items@[i as int]@);
            if i == 0 {
                assert(upto[0] == items@[0]@);
                assert(Seq::<char>::empty() + items@[0]@ =~= items@[0]@);
            }
        }
        if i > 0 {
            out = out.concat(sep);
        }
        out = out.concat(items[i].as_str());
        i += 1;
    }
    assert(all.take(i as int) =~= all);
    out
}

/// The number of marked entries among the first `n`.
pub fn count_cached(cached: &Vec<bool>, n: usize) -> (r: usize)
    ensures
        r == count_flagged(cached@, n as int),
        r <= n,
{
    let mut count: usize = 0;
    let mut i: usize = 0;
    while i < n
        invariant
            i <= n,
            count <= i,
            count == count_flagged(cached@, i as int),
        decreases n - i,
    {
        if i < cached.len() && cached[i] {
            count += 1;
        }
        i += 1;
    }
    count
}

/// The mark of a template.
pub fn mark_of(cached: bool) -> (r: Span)
    ensures
        r@ == mark(cached),
{
    if cached {
        span(String::from_str("\u{2705}"), Style::Good)
    } else {
        span(String::from_str("\u{274c}"), Style::Bad)
    }
}

/// Adds the line that names a template, after two spaces where `indented`.
fn push_head(out: &mut Vec<Vec<Span>>, indented: bool, t: &Template, cached: bool)
    ensures
        lines_view(final(out)@) == lines_view(old(out)@) + seq![
            if indented {
                seq![plain("  "@)] + template_head(t@, cached)
            } else {
                template_head(t@, cached)
            },
        ],
{
    let ghost before = lines_view(out@);
    let ghost wanted = if indented {
        seq![plain("  "@)] + template_head(t@, cached)
    } else {
        template_head(t@, cached)
    };
    let mut line: Vec<Span> = Vec::new();
    if indented {
        line.push(span(String::from_str("  "), Style::Plain));
    }
    line.push(mark_of(cached));
    line.push(span(String::from_str(" "), Style::Plain));
    line.push(span(t.id.clone(), Style::Strong));
    line.push(span(String::from_str(" - ").concat(t.name.as_str()), Style::Plain));
    assert(line_view(line) =~= wanted);
    out.push(line);
    assert(lines_view(out@) =~= before + seq![wanted]);
}

/// Adds a line of plain text.
fn push_plain(out: &mut Vec<Vec<Span>>, text: String)
    ensures
        lines_view(final(out)@) == lines_view(old(out)@) + seq![plain_line(text@)],
{
    let ghost before = lines_view(out@);
    out.push(line_of(text, Style::Plain));
    assert(lines_view(out@) =~= before + seq![plain_line(text@)]);
}

/// Adds a line that is a title.
fn push_title(out: &mut Vec<Vec<Span>>, text: &str, style: Style)
    ensures
        lines_view(final(out)@) == lines_view(old(out)@) + seq![title_line(text@, style)],
{
    let ghost before = lines_view(out@);
    out.push(line_of(String::from_str(text), style));
    assert(lines_view(out@) =~= before + seq![title_line(text@, style)]);
}

/// Adds the lines that describe a template.
fn push_details(out: &mut Vec<Vec<Span>>, lead: &str, t: &Template)
    ensures
        lines_view(final(out)@) == lines_view(old(out)@) + template_details(lead@, t@),
{
    let ghost before = lines_view(out@);
    push_plain(out, join3(lead, "Description: ", t.description.as_str()));
    push_plain(out, join3(lead, "Language: ", t.language.as_str()));
    push_plain(out, join3(lead, "Repository: ", t.repo.as_str()));
    push_plain(out, join3(lead, "Path: ", t.path.as_str()));
    let tags = join_with(&t.tags, ", ");
    push_plain(out, join3(lead, "Tags: ", tags.as_str()));
    push_plain(out, String::new());
    assert(lines_view(out@) =~= before + template_details(lead@, t@));
}

/// Adds the lines of one template in the list of templates.
fn push_listed_template(out: &mut Vec<Vec<Span>>, t: &Template, cached: bool, verbose: bool)
    ensures
        lines_view(final(out)@) == lines_view(old(out)@) + listed_template(t@, cached, verbose),
{
    let ghost before = lines_view(out@);
    if verbose {
        push_head(out, false, t, cached);
        push_details(out, "   ", t);
        assert(lines_view(out@) =~= before + listed_template(t@, cached, verbose));
    } else {
        let mut line: Vec<Span> = Vec::new();
        line.push(mark_of(cached));
        line.push(span(String::from_str(" "), Style::Plain));
        line.push(span(t.id.clone(), Style::Strong));
        line.push(
            span(
                String::from_str(" - ").concat(t.name.as_str()).concat(" (").concat(
                    t.language.as_str(),
                ).concat(")"),
                Style::Plain,
            ),
        );
        assert(line_view(line) =~= listed_template(t@, cached, verbose)[0]);
        out.push(line);
        assert(lines_view(out@) =~= before + listed_template(t@, cached, verbose));
    }
}

/// Adds the lines of one repository in the list of repositories.
fn push_listed_repo(out: &mut Vec<Vec<Span>>, r: &Repo)
    ensures
        lines_view(final(out)@) == lines_view(old(out)@) + listed_repo(r@),
{
    let ghost before = lines_view(out@);
    let mut line: Vec<Span> = Vec::new();
    line.push(span(r.name.clone(), Style::Strong));
    line.push(span(String::from_str(" - ").concat(r.url.as_str()), Style::Plain));
    assert(line_view(line) =~= listed_repo(r@)[0]);
    out.push(line);
    push_plain(out, String::from_str("   \u{1fa90}Branch: ").concat(r.branch.as_str()));
    push_plain(out, String::new());
    assert(lines_view(out@) =~= before + listed_repo(r@));
}

impl TemplateManager {
    /// The list of templates, in brief or with every detail. `cached` says of
    /// each template, in the order of the registry, whether its cache entry
    /// exists; a template without a flag counts as not cached.
    pub fn list_templates(&self, verbose: bool, cached: &Vec<bool>) -> (r: Vec<Vec<Span>>)
        ensures
            lines_view(r@) == template_list(self.config@.templates, cached@, verbose),
    {
        let mut out: Vec<Vec<Span>> = Vec::new();
        assert(lines_view(out@) =~= Seq::<Seq<SpanView>>::empty());
        if verbose {
            push_title(&mut out, "\u{1f4cb} Available Templates", Style::Heading);
        } else {
            push_title(&mut out, "\u{1f4cb} Template List", Style::Heading);
        }
        push_plain(&mut out, String::new());
        let ghost top = lines_view(out@);
        let ghost templates = self.config@.templates;
        if self.config.templates.len() == 0 {
            push_plain(&mut out, String::from_str("No templates available. Add templates first."));
            assert(lines_view(out@) =~= template_list(templates, cached@, verbose));
            return out;
        }
        let mut i: usize = 0;
        assert(lines_view(out@) =~= top + listed_templates(templates, cached@, verbose, 0));
        while i < self.config.templates.len()
            invariant
                i <= self.config.templates.len(),
                templates == self.config@.templates,
                lines_view(out@) == top + listed_templates(templates, cached@, verbose, i as int),
            decreases self.config.templates.len() - i,
        {
            let flag = i < cached.len() && cached[i];
            let ghost before = lines_view(out@);
            push_listed_template(&mut out, &self.config.templates[i], flag, verbose);
            proof {
                assert(self.config.templates@[i as int]@ == templates[i as int]);
                assert(lines_view(out@) =~= top + listed_templates(
                    templates,
                    cached@,
                    verbose,
                    i + 1,
                ));
            }
            i += 1;
        }
        if !verbose {
            push_plain(&mut out, String::new());
            push_plain(
                &mut out,
                String::from_str("\u{1f4a1} Use --verbose to see detailed information"),
            );
        }
        assert(lines_view(out@) =~= template_list(templates, cached@, verbose));
        out
    }

    /// The list of repositories.
    pub fn list_repos(&self) -> (r: Vec<Vec<Span>>)
        ensures
            lines_view(r@) == repo_list(self.config@.repos),
    {
        let mut out: Vec<Vec<Span>> = Vec::new();
        assert(lines_view(out@) =~= Seq::<Seq<SpanView>>::empty());
        push_title(&mut out, "\u{1f4e6} Configured Template Repositories", Style::Heading);
        push_plain(&mut out, String::new());
        let ghost top = lines_view(out@);
        let ghost repos = self.config@.repos;
        if self.config.repos.len() == 0 {
            push_plain(
                &mut out,
                String::from_str("No repositories configured. Add repositories first."),
            );
            assert(lines_view(out@) =~= repo_list(repos));
            return out;
        }
        let mut i: usize = 0;
        assert(lines_view(out@) =~= top + listed_repos(repos, 0));
        while i < self.config.repos.len()
            invariant
                i <= self.config.repos.len(),
                repos == self.config@.repos,
                lines_view(out@) == top + listed_repos(repos, i as int),
            decreases self.config.repos.len() - i,
        {
            push_listed_repo(&mut out, &self.config.repos[i]);
            proof {
                assert(self.config.repos@[i as int]@ == repos[i as int]);
                assert(lines_view(out@) =~= top + listed_repos(repos, i + 1));
            }
            i += 1;
        }
        assert(lines_view(out@) =~= repo_list(repos));
        out
    }
}

/// The lines of one repository in the overview.
pub open spec fn shown_repo(r: RepoView) -> Seq<Seq<SpanView>> {
    seq![
        seq![plain("  "@), styled(r.name, Style::Strong), plain(" - "@ + r.url)],
        plain_line("    Branch: "@ + r.branch),
    ]
}

/// The lines of the first `n` repositories in the overview.
pub open spec fn shown_repos(repos: Seq<RepoView>, n: int) -> Seq<Seq<SpanView>>
    decreases n,
{
    if n <= 0 {
        Seq::empty()
    } else {
        shown_repos(repos, n - 1) + shown_repo(repos[n - 1])
    }
}

/// The lines of one template in the overview.
pub open spec fn shown_template(t: TemplateView, cached: bool) -> Seq<Seq<SpanView>> {
    seq![seq![plain("  "@)] + template_head(t, cached)] + template_details("    "@, t)
}

/// The lines of the first `n` templates in the overview.
pub open spec fn shown_templates(templates: Seq<TemplateView>, cached: Seq<bool>, n: int) -> Seq<
    Seq<SpanView>,
>
    decreases n,
{
    if n <= 0 {
        Seq::empty()
    } else {
        shown_templates(templates, cached, n - 1) + shown_template(
            templates[n - 1],
            flagged(cached, n - 1),
        )
    }
}

/// The part of the overview that counts.
pub open spec fn statistics(repos: nat, templates: nat, cached: nat) -> Seq<Seq<SpanView>> {
    seq![
        title_line("\u{1f4ca} Statistics"@, Style::Section),
        plain_line("  Repositories: "@ + decimal(repos)),
        plain_line("  Templates: "@ + decimal(templates)),
        plain_line("  Cached templates: "@ + decimal(cached) + "/"@ + decimal(templates)),
    ]
}

/// The part of the overview that says where things are kept.
pub open spec fn places(config_path: Option<Seq<char>>, cache_path: Seq<char>) -> Seq<
    Seq<SpanView>,
> {
    seq![
        plain_line(Seq::empty()),
        title_line("\u{1f4c1} Paths"@, Style::Section),
        plain_line(
            "  Config: "@ + match config_path {
                Some(p) => p,
                None => "Unable to determine path"@,
            },
        ),
        plain_line("  Cache: "@ + cache_path),
    ]
}

/// The overview of a registry.
pub open spec fn overview(
    repos: Seq<RepoView>,
    templates: Seq<TemplateView>,
    cached: Seq<bool>,
    config_path: Option<Seq<char>>,
    cache_path: Seq<char>,
) -> Seq<Seq<SpanView>> {
    seq![
        title_line("\u{1f4cb} Current Configuration"@, Style::Heading),
        plain_line(Seq::empty()),
        title_line("\u{1f4e6} Repositories"@, Style::Section),
    ] + (if repos.len() == 0 {
        seq![plain_line("  No repositories configured"@)]
    } else {
        shown_repos(repos, repos.len() as int)
    }) + seq![plain_line(Seq::empty()), title_line("\u{1f3a8} Templates"@, Style::Section)] + (if templates.len()
        == 0 {
        seq![plain_line("  No templates configured"@)]
    } else {
        shown_templates(templates, cached, templates.len() as int)
    }) + statistics(
        repos.len(),
        templates.len(),
        count_flagged(cached, templates.len() as int),
    ) + places(config_path, cache_path)
}

/// Adds the lines of one repository in the overview.
fn push_shown_repo(out: &mut Vec<Vec<Span>>, r: &Repo)
    ensures
        lines_view(final(out)@) == lines_view(old(out)@) + shown_repo(r@),
{
    let ghost before = lines_view(out@);
    let mut line: Vec<Span> = Vec::new();
    line.push(span(String::from_str("  "), Style::Plain));
    line.push(span(r.name.clone(), Style::Strong));
    line.push(span(String::from_str(" - ").concat(r.url.as_str()), Style::Plain));
    assert(line_view(line) =~= shown_repo(r@)[0]);
    out.push(line);
    push_plain(out, String::from_str("    Branch: ").concat(r.branch.as_str()));
    assert(lines_view(out@) =~= before + shown_repo(r@));
}

/// Adds the part of the overview that counts.
fn push_statistics(out: &mut Vec<Vec<Span>>, repos: usize, templates: usize, cached: usize)
    ensures
        lines_view(final(out)@) == lines_view(old(out)@) + statistics(
            repos as nat,
            templates as nat,
            cached as nat,
        ),
{
    let ghost before = lines_view(out@);
    push_title(out, "\u{1f4ca} Statistics", Style::Section);
    push_plain(out, String::from_str("  Repositories: ").concat(decimal_of(repos).as_str()));
    push_plain(out, String::from_str("  Templates: ").concat(decimal_of(templates).as_str()));
    push_plain(
        out,
        String::from_str("  Cached templates: ").concat(decimal_of(cached).as_str()).concat(
            "/",
        ).concat(decimal_of(templates).as_str()),
    );
    assert(lines_view(out@) =~= before + statistics(
        repos as nat,
        templates as nat,
        cached as nat,
    ));
}

/// Adds the part of the overview that says where things are kept.
fn push_places(out: &mut Vec<Vec<Span>>, config_path: Option<&str>, cache_path: &str)
    ensures
        lines_view(final(out)@) == lines_view(old(out)@) + places(
            match config_path {
                Some(p) => Some(p@),
                None => None,
            },
            cache_path@,
        ),
{
    let ghost before = lines_view(out@);
    push_plain(out, String::new());
    push_title(out, "\u{1f4c1} Paths", Style::Section);
    match config_path {
        Some(p) => push_plain(out, String::from_str("  Config: ").concat(p)),
        None => push_plain(
            out,
            String::from_str("  Config: ").concat("Unable to determine path"),
        ),
    }
    push_plain(out, String::from_str("  Cache: ").concat(cache_path));
    assert(lines_view(out@) =~= before + places(
        match config_path {
            Some(p) => Some(p@),
            None => None,
        },
        cache_path@,
    ));
}

impl TemplateManager {
    /// The overview: the repositories, the templates with their marks, the
    /// counts, and where things are kept. `cached` says of each template, in
    /// the order of the registry, whether its cache entry exists;
    /// `config_path` and `cache_path` are the two paths as they are to be
    /// shown, the first absent where it could not be found out.
    pub fn show_info(&self, cached: &Vec<bool>, config_path: Option<&str>, cache_path: &str) -> (r:
        Vec<Vec<Span>>)
        ensures
            lines_view(r@) == overview(
                self.config@.repos,
                self.config@.templates,
                cached@,
                match config_path {
                    Some(p) => Some(p@),
                    None => None,
                },
                cache_path@,
            ),
    {
        let ghost repos = self.config@.repos;
        let ghost templates = self.config@.templates;
        let mut out: Vec<Vec<Span>> = Vec::new();
        assert(lines_view(out@) =~= Seq::<Seq<SpanView>>::empty());
        push_title(&mut out, "\u{1f4cb} Current Configuration", Style::Heading);
        push_plain(&mut out, String::new());
        push_title(&mut out, "\u{1f4e6} Repositories", Style::Section);
        let ghost top = lines_view(out@);
        if self.config.repos.len() == 0 {
            push_plain(&mut out, String::from_str("  No repositories configured"));
        } else {
            let mut i: usize = 0;
            assert(lines_view(out@) =~= top + shown_repos(repos, 0));
            while i < self.config.repos.len()
                invariant
                    i <= self.config.repos.len(),
                    repos == self.config@.repos,
                    lines_view(out@) == top + shown_repos(repos, i as int),
                decreases self.config.repos.len() - i,
            {
                push_shown_repo(&mut out, &self.config.repos[i]);
                proof {
                    assert(self.config.repos@[i as int]@ == repos[i as int]);
                    assert(lines_view(out@) =~= top + shown_repos(repos, i + 1));
                }
                i += 1;
            }
        }
        push_plain(&mut out, String::new());
        push_title(&mut out, "\u{1f3a8} Templates", Style::Section);
        let ghost middle = lines_view(out@);
        if self.config.templates.len() == 0 {
            push_plain(&mut out, String::from_str("  No templates configured"));
        } else {
            let mut k: usize = 0;
            assert(lines_view(out@) =~= middle + shown_templates(templates, cached@, 0));
            while k < self.config.templates.len()
                invariant
                    k <= self.config.templates.len(),
                    templates == self.config@.templates,
                    lines_view(out@) == middle + shown_templates(templates, cached@, k as int),
                decreases self.config.templates.len() - k,
            {
                let flag = k < cached.len() && cached[k];
                let ghost before = lines_view(out@);
                push_head(&mut out, true, &self.config.templates[k], flag);
                push_details(&mut out, "    ", &self.config.templates[k]);
                proof {
                    assert(self.config.templates@[k as int]@ == templates[k as int]);
                    assert(lines_view(out@) =~= before + shown_template(templates[k as int], flag));
                    assert(lines_view(out@) =~= middle + shown_templates(
                        templates,
                        cached@,
                        k + 1,
                    ));
                }
                k += 1;
            }
        }
        let count = count_cached(cached, self.config.templates.len());
        push_statistics(&mut out, self.config.repos.len(), self.config.templates.len(), count);
        push_places(&mut out, config_path, cache_path);
        assert(lines_view(out@) =~= overview(
            repos,
            templates,
            cached@,
            match config_path {
                Some(p) => Some(p@),
                None => None,
            },
            cache_path@,
        ));
        out
    }
}

} // verus!
