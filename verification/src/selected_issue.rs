//! The detail component: a pure projection of the currently selected issue
//! into text lines for the main pane and the metadata sidebar, plus an
//! independent scroll offset over the (potentially long) description.

use vstd::prelude::*;
use crate::events::{Key, LtEvent};
use crate::iconmap::{ico_to_nf, p_to_nf, spec_ico_to_nf, spec_p_to_nf, spec_state_to_nf, state_to_nf};
use crate::issue::{IssueFragment, IssueFragmentLabelsEdges};

verus! {

/// What a creation timestamp is displayed as: month/day/year if the text
/// parses as an RFC 3339 date-time, nothing otherwise. The result depends
/// on the input text alone.
pub uninterp spec fn date_display_of(s: Seq<char>) -> Option<Seq<char>>;

/// Relies on chrono's `DateTime::parse_from_rfc3339` and its `%m/%d/%Y`
/// formatting: a pure function of the input text.
#[verifier::external_body]
fn format_rfc3339_date(s: &String) -> (r: Option<String>)
    ensures
        (r is Some) == (date_display_of(s@) is Some),
        r matches Some(t) ==> date_display_of(s@) == Some(t@),
{
    match chrono::DateTime::parse_from_rfc3339(s) {
        Ok(dt) => Some(dt.format("%m/%d/%Y").to_string()),
        Err(_) => None,
    }
}

/// The creation date as shown in the sidebar's title: the formatted date,
/// or the raw timestamp text when it does not parse.
pub fn created_date_text(s: &String) -> (r: String)
    ensures
        match date_display_of(s@) {
            Some(t) => r@ == t,
            None => r@ == s@,
        },
{
    match format_rfc3339_date(s) {
        Some(t) => t,
        None => s.clone(),
    }
}

/// The scroll offset actually applied, and whether scrolling is enabled:
/// content taller than the viewport scrolls, clamped to half the content
/// height; shorter content does not scroll at all.
pub open spec fn spec_effective_scroll(
    scroll: usize,
    content_height: usize,
    viewport_height: usize,
) -> (usize, bool) {
    if content_height > viewport_height {
        (if scroll > content_height / 2 {
            (content_height / 2) as usize
        } else {
            scroll
        }, true)
    } else {
        (0usize, false)
    }
}

pub fn effective_scroll(scroll: usize, content_height: usize, viewport_height: usize) -> (r: (
    usize,
    bool,
))
    ensures
        r == spec_effective_scroll(scroll, content_height, viewport_height),
{
    if content_height > viewport_height {
        let half = content_height / 2;
        (if scroll > half {
            half
        } else {
            scroll
        }, true)
    } else {
        (0, false)
    }
}

/// The label spans of the tags line, in label order: a bullet, the label's
/// name and a space for each label.
pub open spec fn spec_tags_line(edges: Seq<IssueFragmentLabelsEdges>) -> Seq<char>
    decreases edges.len(),
{
    if edges.len() == 0 {
        Seq::<char>::empty()
    } else {
        spec_tags_line(edges.drop_last()) + "• "@ + edges.last().node.name@ + " "@
    }
}

fn tags_line(edges: &Vec<IssueFragmentLabelsEdges>) -> (r: String)
    ensures
        r@ == spec_tags_line(edges@),
{
    let mut s = String::new();
    let mut i: usize = 0;
    while i < edges.len()
        invariant
            0 <= i <= edges@.len(),
            s@ == spec_tags_line(edges@.take(i as int)),
        decreases edges@.len() - i,
    {
        s.append("• ");
        s.append(edges[i].node.name.as_str());
        s.append(" ");
        proof {
            assert(edges@.take((i + 1) as int).drop_last() =~= edges@.take(i as int));
            assert(edges@.take((i + 1) as int).last() == edges@[i as int]);
        }
        i += 1;
    }
    proof {
        assert(edges@.take(edges@.len() as int) =~= edges@);
    }
    s
}

/// The sidebar's text lines for one issue: a header, a value line and a
/// blank line for each field that is present, in the fixed order priority,
/// status, project, assignee, creator, tags.
pub open spec fn spec_sidebar_lines(iss: IssueFragment) -> Seq<Seq<char>> {
    (if iss.priority_label@.len() > 0 {
        seq!["Priority:"@, spec_p_to_nf(iss.priority) + iss.priority_label@, ""@]
    } else {
        Seq::<Seq<char>>::empty()
    }) + (if iss.state.name@.len() > 0 {
        seq![
            "Status:"@,
            spec_state_to_nf(iss.state.type_@) + " "@ + iss.state.name@,
            ""@,
        ]
    } else {
        Seq::<Seq<char>>::empty()
    }) + (match iss.project {
        Some(p) => seq![
            "Project:"@,
            spec_ico_to_nf(
                match p.icon {
                    Some(ic) => ic@,
                    None => "NN"@,
                },
            ) + p.name@,
            ""@,
        ],
        None => Seq::<Seq<char>>::empty(),
    }) + (match iss.assignee {
        Some(a) => seq![
            "Assignee:"@,
            if a.is_me {
                "You"@
            } else {
                a.display_name@
            },
            ""@,
        ],
        None => Seq::<Seq<char>>::empty(),
    }) + (match iss.creator {
        Some(c) => seq![
            "Creator:"@,
            if c.is_me {
                "You"@
            } else {
                c.display_name@
            },
            ""@,
        ],
        None => Seq::<Seq<char>>::empty(),
    }) + (if iss.labels.edges@.len() > 0 {
        seq!["Tags:"@, spec_tags_line(iss.labels.edges@), ""@]
    } else {
        Seq::<Seq<char>>::empty()
    })
}

/// The sidebar's text lines for the selected issue (see
/// `spec_sidebar_lines`).
#[verifier::rlimit(100)]
pub fn sidebar_lines(iss: &IssueFragment) -> (r: Vec<String>)
    ensures
        r.deep_view() == spec_sidebar_lines(*iss),
{
    let mut out: Vec<String> = Vec::new();
    if !iss.priority_label.as_str().is_empty() {
        out.push("Priority:".to_owned());
        let mut line = p_to_nf(iss.priority);
        line.append(iss.priority_label.as_str());
        out.push(line);
        out.push("".to_owned());
    }
    if !iss.state.name.as_str().is_empty() {
        out.push("Status:".to_owned());
        let mut line = state_to_nf(iss.state.type_.as_str());
        line.append(" ");
        line.append(iss.state.name.as_str());
        out.push(line);
        out.push("".to_owned());
    }
    match &iss.project {
        Some(p) => {
            out.push("Project:".to_owned());
            let mut line = match &p.icon {
                Some(ic) => ico_to_nf(ic.as_str()),
                None => ico_to_nf("NN"),
            };
            line.append(p.name.as_str());
            out.push(line);
            out.push("".to_owned());
        },
        None => {},
    }
    match &iss.assignee {
        Some(a) => {
            out.push("Assignee:".to_owned());
            if a.is_me {
                out.push("You".to_owned());
            } else {
                out.push(a.display_name.clone());
            }
            out.push("".to_owned());
        },
        None => {},
    }
    match &iss.creator {
        Some(c) => {
            out.push("Creator:".to_owned());
            if c.is_me {
                out.push("You".to_owned());
            } else {
                out.push(c.display_name.clone());
            }
            out.push("".to_owned());
        },
        None => {},
    }
    if iss.labels.edges.len() > 0 {
        out.push("Tags:".to_owned());
        out.push(tags_line(&iss.labels.edges));
        out.push("".to_owned());
    }
    proof {
        assert(out.deep_view() =~~= spec_sidebar_lines(*iss));
    }
    out
}

/// The detail widget: the issue being shown (if any) and its own scroll
/// offset over the description, independent of the list's cursor.
pub struct SelectedIssueWidget {
    pub selected_issue: Option<IssueFragment>,
    pub scroll: usize,
}

impl Default for SelectedIssueWidget {
    fn default() -> (r: Self)
        ensures
            r.selected_issue is None,
            r.scroll == 0,
    {
        SelectedIssueWidget { selected_issue: None, scroll: 0 }
    }
}

/// How the detail widget's scroll offset reacts to a key press: the arrow
/// keys move it one line with saturation at both ends, everything else
/// leaves it alone; the shown issue never changes here.
pub open spec fn scroll_rel(pre: SelectedIssueWidget, post: SelectedIssueWidget, key: Key) -> bool {
    &&& post.selected_issue == pre.selected_issue
    &&& (key is Down ==> post.scroll == (if pre.scroll < usize::MAX {
        (pre.scroll + 1) as usize
    } else {
        pre.scroll
    }))
    &&& (key is Up ==> post.scroll == (if pre.scroll > 0 {
        (pre.scroll - 1) as usize
    } else {
        0usize
    }))
    &&& (!(key is Down) && !(key is Up) ==> post.scroll == pre.scroll)
}

impl SelectedIssueWidget {
    /// Show a different issue (or none); the scroll offset restarts at the
    /// top whenever the selection changes.
    pub fn set_selected_issue(&mut self, issue: Option<IssueFragment>)
        ensures
            final(self).selected_issue == issue,
            final(self).scroll == 0,
    {
        self.selected_issue = issue;
        self.scroll = 0;
    }

    /// Scroll the description: arrow keys move the offset one line, with
    /// saturation at both ends; every other key is ignored.
    pub fn handle_event(&mut self, key: Key) -> (r: LtEvent)
        ensures
            scroll_rel(*old(self), *final(self), key),
            r is Nothing,
    {
        match key {
            Key::Down => {
                if self.scroll < usize::MAX {
                    self.scroll = self.scroll + 1;
                }
            },
            Key::Up => {
                if self.scroll > 0 {
                    self.scroll = self.scroll - 1;
                }
            },
            _ => {},
        }
        LtEvent::Nothing
    }
}

} // verus!
