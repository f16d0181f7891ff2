//! The canonical, view-independent shape of an issue. Every query response
//! is normalized into this shape before the rest of the system sees it.

use vstd::prelude::*;
use crate::views::clone_opt_string;

verus! {

/// Workflow state of an issue: display name, color, and category type.
#[derive(Debug)]
pub struct IssueFragmentState {
    pub name: String,
    pub color: String,
    pub type_: String,
}

impl Clone for IssueFragmentState {
    fn clone(&self) -> (r: Self)
        ensures
            r == *self,
    {
        IssueFragmentState {
            name: self.name.clone(),
            color: self.color.clone(),
            type_: self.type_.clone(),
        }
    }
}

#[derive(Debug)]
pub struct IssueFragmentAssignee {
    pub is_me: bool,
    pub display_name: String,
}

impl Clone for IssueFragmentAssignee {
    fn clone(&self) -> (r: Self)
        ensures
            r == *self,
    {
        IssueFragmentAssignee { is_me: self.is_me, display_name: self.display_name.clone() }
    }
}

#[derive(Debug)]
pub struct IssueFragmentCreator {
    pub is_me: bool,
    pub display_name: String,
}

impl Clone for IssueFragmentCreator {
    fn clone(&self) -> (r: Self)
        ensures
            r == *self,
    {
        IssueFragmentCreator { is_me: self.is_me, display_name: self.display_name.clone() }
    }
}

#[derive(Debug)]
pub struct IssueFragmentProject {
    pub name: String,
    pub icon: Option<String>,
    pub color: String,
}

impl Clone for IssueFragmentProject {
    fn clone(&self) -> (r: Self)
        ensures
            r == *self,
    {
        IssueFragmentProject {
            name: self.name.clone(),
            icon: clone_opt_string(&self.icon),
            color: self.color.clone(),
        }
    }
}

#[derive(Debug)]
pub struct IssueFragmentLabelsEdgesNode {
    pub color: String,
    pub name: String,
}

impl Clone for IssueFragmentLabelsEdgesNode {
    fn clone(&self) -> (r: Self)
        ensures
            r == *self,
    {
        IssueFragmentLabelsEdgesNode { color: self.color.clone(), name: self.name.clone() }
    }
}

#[derive(Debug)]
pub struct IssueFragmentLabelsEdges {
    pub node: IssueFragmentLabelsEdgesNode,
}

impl Clone for IssueFragmentLabelsEdges {
    fn clone(&self) -> (r: Self)
        ensures
            r == *self,
    {
        IssueFragmentLabelsEdges { node: self.node.clone() }
    }
}

/// The ordered list of labels attached to an issue.
#[derive(Debug)]
pub struct IssueFragmentLabels {
    pub edges: Vec<IssueFragmentLabelsEdges>,
}

impl Clone for IssueFragmentLabels {
    fn clone(&self) -> (r: Self)
        ensures
            r.edges@ == self.edges@,
    {
        let mut edges: Vec<IssueFragmentLabelsEdges> = Vec::new();
        let mut i: usize = 0;
        while i < self.edges.len()
            invariant
                0 <= i <= self.edges.len(),
                edges@ == self.edges@.take(i as int),
            decreases self.edges.len() - i,
        {
            edges.push(self.edges[i].clone());
            proof {
                assert(edges@ =~= self.edges@.take((i + 1) as int));
            }
            i += 1;
        }
        proof {
            assert(edges@ =~= self.edges@);
        }
        IssueFragmentLabels { edges }
    }
}

/// One issue, immutable once fetched. Priority is the tracker's numeric
/// convention: 0 none, 1 urgent .. 4 low.
#[derive(Debug)]
pub struct IssueFragment {
    pub title: String,
    pub identifier: String,
    pub state: IssueFragmentState,
    pub url: String,
    pub assignee: Option<IssueFragmentAssignee>,
    pub creator: Option<IssueFragmentCreator>,
    pub estimate: Option<u64>,
    pub project: Option<IssueFragmentProject>,
    pub created_at: String,
    pub priority_label: String,
    pub priority: u8,
    pub labels: IssueFragmentLabels,
    pub branch_name: String,
    pub description: Option<String>,
}

/// Field-wise sameness of two issues. This is what `clone` guarantees; it is
/// plain equality on every field except the label list, which is compared as
/// a sequence.
pub open spec fn issue_matches(a: IssueFragment, b: IssueFragment) -> bool {
    &&& a.title == b.title
    &&& a.identifier == b.identifier
    &&& a.state == b.state
    &&& a.url == b.url
    &&& a.assignee == b.assignee
    &&& a.creator == b.creator
    &&& a.estimate == b.estimate
    &&& a.project == b.project
    &&& a.created_at == b.created_at
    &&& a.priority_label == b.priority_label
    &&& a.priority == b.priority
    &&& a.labels.edges@ == b.labels.edges@
    &&& a.branch_name == b.branch_name
    &&& a.description == b.description
}

fn clone_opt_assignee(o: &Option<IssueFragmentAssignee>) -> (r: Option<IssueFragmentAssignee>)
    ensures
        r == *o,
{
    match o {
        Some(a) => Some(a.clone()),
        None => None,
    }
}

fn clone_opt_creator(o: &Option<IssueFragmentCreator>) -> (r: Option<IssueFragmentCreator>)
    ensures
        r == *o,
{
    match o {
        Some(c) => Some(c.clone()),
        None => None,
    }
}

fn clone_opt_project(o: &Option<IssueFragmentProject>) -> (r: Option<IssueFragmentProject>)
    ensures
        r == *o,
{
    match o {
        Some(p) => Some(p.clone()),
        None => None,
    }
}

impl Clone for IssueFragment {
    fn clone(&self) -> (r: Self)
        ensures
            issue_matches(*self, r),
    {
        IssueFragment {
            title: self.title.clone(),
            identifier: self.identifier.clone(),
            state: self.state.clone(),
            url: self.url.clone(),
            assignee: clone_opt_assignee(&self.assignee),
            creator: clone_opt_creator(&self.creator),
            estimate: match &self.estimate {
                Some(e) => Some(*e),
                None => None,
            },
            project: clone_opt_project(&self.project),
            created_at: self.created_at.clone(),
            priority_label: self.priority_label.clone(),
            priority: self.priority,
            labels: self.labels.clone(),
            branch_name: self.branch_name.clone(),
            description: clone_opt_string(&self.description),
        }
    }
}

} // verus!
