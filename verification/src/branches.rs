//! Branches: the current one, the sorted list of all, the guarded checkout
//! of one, and the summary of a repository.

use crate::backend::{
    branch_into_reference, branch_name, branch_reference, branches_next, checkout_options,
    checkout_options_force, commit_id, file_name_of, oid_hex, open_repository, path_file_name,
    reference_is_branch, reference_name, reference_peel_to_commit, reference_peel_to_tree,
    reference_shorthand, reference_target, repo_branches, repo_checkout_tree,
    repo_find_local_branch, repo_head, repo_set_head, repo_statuses, repo_workdir,
    status_entries,
};
use crate::history::open_at;
use crate::error::{conflict_text, ErrorKind, GitError};
use crate::model::{Branch, BranchView, RepoInfo};
use crate::raw::{is_full_oid, BranchScope};
use crate::text::{
    lemma_name_le_antisymmetric, lemma_name_le_reflexive, lemma_name_le_total,
    lemma_name_le_transitive, name_le, name_precedes,
};
use crate::working::{blocks_checkout, has_blocking_change};
use git2::Branch as GitBranch;
use vstd::prelude::*;

verus! {

/// The order of a branch listing: the current branch first, then the
/// local branches, then the remote ones; within each group by name.
pub open spec fn branch_le(a: BranchView, b: BranchView) -> bool {
    if a.is_current != b.is_current {
        a.is_current
    } else if a.is_remote != b.is_remote {
        !a.is_remote
    } else {
        name_le(a.name, b.name)
    }
}

/// Whether a listing is in order.
pub open spec fn is_ordered(branches: Seq<BranchView>) -> bool {
    forall|i: int, j: int|
        0 <= i < j < branches.len() ==> branch_le(#[trigger] branches[i], #[trigger] branches[j])
}

/// What holds of every branch of a listing: only a local branch is marked
/// current, and the id of the tip is an object id written out in full, or
/// empty.
pub open spec fn is_listed_branch(branch: BranchView) -> bool {
    &&& branch.is_current ==> !branch.is_remote
    &&& branch.commit_id.len() == 0 || is_full_oid(branch.commit_id)
}

/// Whether every branch of a listing is marked and identified as a listed
/// branch is.
pub open spec fn all_listed(branches: Seq<BranchView>) -> bool {
    forall|i: int| 0 <= i < branches.len() ==> is_listed_branch(#[trigger] branches[i])
}

/// Whether `branch` is the entry of a branch while `current` is the name
/// of the current branch, if there is one: it is marked current exactly
/// where it is local and has that name, and the id of its tip is an object
/// id written out in full, or empty.
pub open spec fn is_entry(branch: BranchView, current: Option<Seq<char>>) -> bool {
    &&& branch.is_current == (!branch.is_remote && current == Some(branch.name))
    &&& branch.commit_id.len() == 0 || is_full_oid(branch.commit_id)
}

/// Whether every branch of a listing is an entry while `current` is the
/// name of the current branch.
pub open spec fn all_entries(branches: Seq<BranchView>, current: Option<Seq<char>>) -> bool {
    forall|i: int| 0 <= i < branches.len() ==> is_entry(#[trigger] branches[i], current)
}

/// Whether the branches of a listing are marked against one name: there
/// is a name of the current branch, or none, with which every branch of the
/// listing is an entry.
pub open spec fn marked_as_one(branches: Seq<BranchView>) -> bool {
    exists|current: Option<Seq<char>>| #[trigger] all_entries(branches, current)
}

/// Where a branch goes into a listing that is in order: behind every
/// branch that is in order before it or equal to it in order.
pub open spec fn insert_position(sorted: Seq<BranchView>, b: BranchView) -> int
    decreases sorted.len(),
{
    if sorted.len() == 0 {
        0
    } else if !branch_le(sorted[0], b) {
        0
    } else {
        1 + insert_position(sorted.drop_first(), b)
    }
}

/// A listing brought in order: each branch in turn goes in at its
/// position. Branches that are equal in order keep the order in which they
/// came.
pub open spec fn sorted_branches(branches: Seq<BranchView>) -> Seq<BranchView>
    decreases branches.len(),
{
    if branches.len() == 0 {
        Seq::empty()
    } else {
        let rest = sorted_branches(branches.drop_last());
        rest.insert(insert_position(rest, branches.last()), branches.last())
    }
}

/// Every branch is in order with itself.
pub proof fn lemma_branch_le_reflexive(a: BranchView)
    ensures
        branch_le(a, a),
{
    lemma_name_le_reflexive(a.name);
}

/// Two branches that are in order both ways are marked alike and have one
/// name.
pub proof fn lemma_branch_le_antisymmetric(a: BranchView, b: BranchView)
    requires
        branch_le(a, b),
        branch_le(b, a),
    ensures
        a.is_current == b.is_current,
        a.is_remote == b.is_remote,
        a.name == b.name,
{
    lemma_name_le_antisymmetric(a.name, b.name);
}

/// Of two branches one is in order before the other.
pub proof fn lemma_branch_le_total(a: BranchView, b: BranchView)
    ensures
        branch_le(a, b) || branch_le(b, a),
{
    lemma_name_le_total(a.name, b.name);
}

/// The order of branches is transitive.
pub proof fn lemma_branch_le_transitive(a: BranchView, b: BranchView, c: BranchView)
    requires
        branch_le(a, b),
        branch_le(b, c),
    ensures
        branch_le(a, c),
{
    if a.is_current == b.is_current && b.is_current == c.is_current && a.is_remote == b.is_remote
        && b.is_remote == c.is_remote {
        lemma_name_le_transitive(a.name, b.name, c.name);
    }
}

/// The position at which a branch goes in is the first at which a branch
/// stands that is not in order before it.
pub proof fn lemma_insert_position(sorted: Seq<BranchView>, b: BranchView)
    ensures
        0 <= insert_position(sorted, b) <= sorted.len(),
        forall|i: int| 0 <= i < insert_position(sorted, b) ==> branch_le(#[trigger] sorted[i], b),
        insert_position(sorted, b) < sorted.len() ==> !branch_le(
            sorted[insert_position(sorted, b)],
            b,
        ),
    decreases sorted.len(),
{
    if sorted.len() > 0 && branch_le(sorted[0], b) {
        let rest = sorted.drop_first();
        lemma_insert_position(rest, b);
        assert forall|i: int| 0 <= i < insert_position(sorted, b) implies branch_le(
            #[trigger] sorted[i],
            b,
        ) by {
            if i > 0 {
                assert(sorted[i] == rest[i - 1]);
            }
        }
    }
}

/// A position with the two properties of the position at which a branch
/// goes in is that position.
proof fn lemma_insert_position_unique(sorted: Seq<BranchView>, b: BranchView, p: int)
    requires
        0 <= p <= sorted.len(),
        forall|i: int| 0 <= i < p ==> branch_le(#[trigger] sorted[i], b),
        p < sorted.len() ==> !branch_le(sorted[p], b),
    ensures
        p == insert_position(sorted, b),
{
    lemma_insert_position(sorted, b);
}

/// A branch that goes into a listing in order leaves it in order.
proof fn lemma_insert_keeps_order(sorted: Seq<BranchView>, b: BranchView)
    requires
        is_ordered(sorted),
    ensures
        is_ordered(sorted.insert(insert_position(sorted, b), b)),
{
    lemma_insert_position(sorted, b);
    let p = insert_position(sorted, b);
    let out = sorted.insert(p, b);
    assert forall|i: int, j: int| 0 <= i < j < out.len() implies branch_le(
        #[trigger] out[i],
        #[trigger] out[j],
    ) by {
        if i == p {
            lemma_branch_le_total(sorted[p], b);
            if j - 1 > p {
                lemma_branch_le_transitive(b, sorted[p], sorted[j - 1]);
            }
        }
    }
}

/// A listing brought in order is in order.
pub proof fn lemma_sorted_is_ordered(branches: Seq<BranchView>)
    ensures
        is_ordered(sorted_branches(branches)),
    decreases branches.len(),
{
    if branches.len() > 0 {
        lemma_sorted_is_ordered(branches.drop_last());
        lemma_insert_keeps_order(sorted_branches(branches.drop_last()), branches.last());
    }
}

/// A listing brought in order holds the branches that it held before,
/// each as often as before.
pub proof fn lemma_sorted_is_permutation(branches: Seq<BranchView>)
    ensures
        sorted_branches(branches).to_multiset() == branches.to_multiset(),
        sorted_branches(branches).len() == branches.len(),
    decreases branches.len(),
{
    broadcast use vstd::seq_lib::group_to_multiset_ensures;

    if branches.len() > 0 {
        let init = branches.drop_last();
        let b = branches.last();
        lemma_sorted_is_permutation(init);
        lemma_insert_position(sorted_branches(init), b);
        assert(branches =~= init.push(b));
    }
}

/// In a listing that is in order, and in which only local branches are
/// marked current, as in every listing of branches: where a branch is
/// marked current, the branch at the head is; every local branch stands
/// before every remote one; and of two branches of one group, one marked
/// as the other, the names are in order.
pub proof fn lemma_listing_order(branches: Seq<BranchView>)
    requires
        is_ordered(branches),
        all_listed(branches),
    ensures
        (exists|k: int| 0 <= k < branches.len() && (#[trigger] branches[k]).is_current)
            ==> branches[0].is_current,
        forall|i: int, j: int|
            0 <= i < branches.len() && 0 <= j < branches.len() && !(#[trigger] branches[i]).is_remote
                && (#[trigger] branches[j]).is_remote ==> i < j,
        forall|i: int, j: int|
            0 <= i < j < branches.len() && (#[trigger] branches[i]).is_remote == (
            #[trigger] branches[j]).is_remote && branches[i].is_current == branches[j].is_current
                ==> name_le(branches[i].name, branches[j].name),
{
}

/// Whether branch `a` is in order before branch `b`, or equal to it in
/// order.
pub fn branch_precedes(a: &Branch, b: &Branch) -> (r: bool)
    ensures
        r == branch_le(a@, b@),
{
    if a.is_current != b.is_current {
        a.is_current
    } else if a.is_remote != b.is_remote {
        !a.is_remote
    } else {
        name_precedes(a.name.as_str(), b.name.as_str())
    }
}

/// In a listing that is in order, the position at which a branch goes in
/// is behind the last branch that is in order before it.
proof fn lemma_insert_position_from_behind(sorted: Seq<BranchView>, b: BranchView, p: int)
    requires
        is_ordered(sorted),
        0 <= p <= sorted.len(),
        p > 0 ==> branch_le(sorted[p - 1], b),
        forall|i: int| p <= i < sorted.len() ==> !branch_le(#[trigger] sorted[i], b),
    ensures
        p == insert_position(sorted, b),
{
    assert forall|i: int| 0 <= i < p implies branch_le(#[trigger] sorted[i], b) by {
        if i < p - 1 {
            lemma_branch_le_transitive(sorted[i], sorted[p - 1], b);
        }
    }
    lemma_insert_position_unique(sorted, b, p);
}

/// Brings a listing in order: the current branch first, then the local
/// branches, then the remote ones, each group by name.
pub fn sort_branches(branches: Vec<Branch>) -> (sorted: Vec<Branch>)
    ensures
        sorted.deep_view() == sorted_branches(branches.deep_view()),
        is_ordered(sorted.deep_view()),
        sorted.deep_view().to_multiset() == branches.deep_view().to_multiset(),
        sorted.len() == branches.len(),
{
    let ghost all = branches.deep_view();
    let mut sorted: Vec<Branch> = Vec::new();
    for branch in it: branches
        invariant
            it.seq().len() == all.len(),
            forall|i: int| 0 <= i < all.len() ==> (#[trigger] it.seq()[i])@ == all[i],
            sorted.deep_view() == sorted_branches(all.take(it.index() as int)),
    {
        let ghost done = it.index() as int;
        let ghost target = sorted.deep_view();
        proof {
            lemma_sorted_is_ordered(all.take(done));
        }
        let mut position: usize = sorted.len();
        while position > 0 && !branch_precedes(&sorted[position - 1], &branch)
            invariant
                position <= sorted.len(),
                target == sorted.deep_view(),
                forall|i: int|
                    position <= i < target.len() ==> !branch_le(#[trigger] target[i], branch@),
            decreases position,
        {
            position = position - 1;
        }
        proof {
            lemma_insert_position_from_behind(target, branch@, position as int);
        }
        sorted.insert(position, branch);
        proof {
            assert(all.take(done + 1).drop_last() =~= all.take(done));
        }
    }
    proof {
        assert(all.take(all.len() as int) =~= all);
        lemma_sorted_is_ordered(all);
        lemma_sorted_is_permutation(all);
    }
    sorted
}

/// The name under which the head is reported: the short name of the
/// branch that it is on, or the id of the commit that it stands at where
/// it is on no branch. The kind of failure where the name is missing.
pub open spec fn head_name_of(is_branch: bool, shorthand: Option<String>, target: Option<String>)
    -> Result<Seq<char>, ErrorKind> {
    if is_branch {
        match shorthand {
            Some(name) => Ok(name@),
            None => Err(ErrorKind::Backend),
        }
    } else {
        match target {
            Some(hex) => Ok(hex@),
            None => Err(ErrorKind::RevisionResolutionFailed),
        }
    }
}

/// The message under which a head without a name is reported.
pub open spec fn head_failure_text(is_branch: bool) -> Seq<char> {
    if is_branch {
        "Branch name is not valid UTF-8"@
    } else {
        "HEAD has no target"@
    }
}

/// Computes the name under which the head is reported.
pub fn head_name(is_branch: bool, shorthand: Option<String>, target: Option<String>) -> (res:
    Result<String, GitError>)
    ensures
        match head_name_of(is_branch, shorthand, target) {
            Ok(name) => res matches Ok(s) && s@ == name,
            Err(kind) => res matches Err(e) && e.kind == kind && e.text@ == head_failure_text(
                is_branch,
            ),
        },
{
    if is_branch {
        match shorthand {
            Some(name) => Ok(name),
            None => Err(GitError::new(ErrorKind::Backend, "Branch name is not valid UTF-8")),
        }
    } else {
        match target {
            Some(hex) => Ok(hex),
            None => Err(GitError::new(ErrorKind::RevisionResolutionFailed, "HEAD has no target")),
        }
    }
}

/// The kinds of failure of the lookup of the current branch.
pub open spec fn is_head_failure(kind: ErrorKind) -> bool {
    kind == ErrorKind::RepositoryNotFound || kind == ErrorKind::RevisionResolutionFailed || kind
        == ErrorKind::Backend
}

/// The name of the current branch of a repository that is open, or the
/// id of the commit at its head where the head is on no branch.
fn current_branch_of(repo: &git2::Repository) -> (res: Result<String, GitError>)
    ensures
        res matches Err(e) ==> (e.kind == ErrorKind::RevisionResolutionFailed || e.kind
            == ErrorKind::Backend) && e.worded(),
{
    let head = match repo_head(repo) {
        Ok(h) => h,
        Err(e) => {
            return Err(
                GitError::from_backend(
                    ErrorKind::RevisionResolutionFailed,
                    "Failed to get HEAD",
                    &e,
                ),
            );
        },
    };
    let is_branch = reference_is_branch(&head);
    let shorthand = reference_shorthand(&head);
    let target = match reference_target(&head) {
        Some(oid) => Some(oid_hex(&oid)),
        None => None,
    };
    head_name(is_branch, shorthand, target)
}

/// The name of the current branch of the repository at `repo_path`; the
/// full id of the commit at the head where the head is detached.
pub fn get_current_branch(repo_path: &str) -> (res: Result<String, GitError>)
    ensures
        res matches Err(e) ==> is_head_failure(e.kind) && e.worded(),
{
    let repo = match open_at(repo_path) {
        Ok(r) => r,
        Err(e) => {
            return Err(e);
        },
    };
    current_branch_of(&repo)
}

/// The entry of a listing for a branch: current where it is local and has
/// the name of the current branch; with the id of its tip, empty where the
/// tip could not be resolved.
pub fn make_branch(name: String, is_remote: bool, current: &Option<String>, tip: Option<String>)
    -> (branch: Branch)
    ensures
        branch.name@ == name@,
        branch.is_remote == is_remote,
        branch.is_current == (!is_remote && current.deep_view() == Some(name@)),
        branch.commit_id@ == (match tip {
            Some(hex) => hex@,
            None => Seq::<char>::empty(),
        }),
        (tip matches Some(hex) ==> is_full_oid(hex@)) ==> is_entry(branch@, current.deep_view()),
{
    let is_current = if is_remote {
        false
    } else {
        match current {
            Some(c) => *c == name,
            None => false,
        }
    };
    let commit_id = match tip {
        Some(hex) => hex,
        None => String::new(),
    };
    Branch { name, is_current, is_remote, commit_id }
}

/// The id of the commit at the tip of a branch, where it can be resolved.
fn tip_of(branch: &GitBranch<'_>) -> (tip: Option<String>)
    ensures
        tip matches Some(hex) ==> is_full_oid(hex@),
{
    match reference_peel_to_commit(branch_reference(branch)) {
        Ok(commit) => Some(oid_hex(&commit_id(&commit))),
        Err(_) => None,
    }
}

/// Adds the branches of one scope to a listing: what the listing held
/// stays at its head, and behind it comes one entry for each branch that
/// the backend gives, local or remote as the scope says and marked against
/// `current`, the name of the current branch. On a failure the listing
/// holds the entries that were made before it.
fn collect_branches(
    repo: &git2::Repository,
    scope: BranchScope,
    current: &Option<String>,
    listing: &mut Vec<Branch>,
) -> (res: Result<(), GitError>)
    ensures
        old(listing).deep_view().is_prefix_of(final(listing).deep_view()),
        forall|i: int|
            old(listing).len() <= i < final(listing).len() ==> {
                let entry = #[trigger] final(listing).deep_view()[i];
                entry.is_remote == (scope == BranchScope::Remote) && is_entry(
                    entry,
                    current.deep_view(),
                )
            },
        res matches Err(e) ==> e.kind == ErrorKind::Backend,
{
    let ghost held = listing.deep_view();
    let is_remote = match scope {
        BranchScope::Local => false,
        BranchScope::Remote => true,
    };
    let mut branches = match repo_branches(repo, scope) {
        Ok(b) => b,
        Err(e) => {
            let context = if is_remote {
                "Failed to list remote branches"
            } else {
                "Failed to list branches"
            };
            return Err(GitError::from_backend(ErrorKind::Backend, context, &e));
        },
    };
    while listing.len() < usize::MAX
        invariant
            is_remote == (scope == BranchScope::Remote),
            held == old(listing).deep_view(),
            held.is_prefix_of(listing.deep_view()),
            forall|i: int|
                held.len() <= i < listing.len() ==> {
                    let entry = #[trigger] listing.deep_view()[i];
                    entry.is_remote == is_remote && is_entry(entry, current.deep_view())
                },
        decreases usize::MAX - listing.len(),
    {
        let branch = match branches_next(&mut branches) {
            None => {
                break ;
            },
            Some(Err(e)) => {
                return Err(GitError::from_backend(ErrorKind::Backend, "Failed to get branch", &e));
            },
            Some(Ok(b)) => b,
        };
        let name = match branch_name(&branch) {
            Err(e) => {
                return Err(
                    GitError::from_backend(ErrorKind::Backend, "Failed to get branch name", &e),
                );
            },
            Ok(None) => {
                return Err(GitError::new(ErrorKind::Backend, "Branch name is not valid UTF-8"));
            },
            Ok(Some(n)) => n,
        };
        let tip = tip_of(&branch);
        let ghost before = listing.deep_view();
        let entry = make_branch(name, is_remote, current, tip);
        listing.push(entry);
        proof {
            assert(listing.deep_view() =~= before.push(entry@));
        }
    }
    Ok(())
}

/// The kinds of failure of a branch listing.
pub open spec fn is_branch_listing_failure(kind: ErrorKind) -> bool {
    kind == ErrorKind::RepositoryNotFound || kind == ErrorKind::Backend
}

/// Lists the branches of the repository at `repo_path`: the local ones
/// and the remote-tracking ones, in order. The current branch comes first,
/// then the other local branches, then the remote ones; each group is in
/// the order of the names. A branch is marked current exactly where it is
/// local and has the name of the current branch.
pub fn list_branches(repo_path: &str) -> (res: Result<Vec<Branch>, GitError>)
    ensures
        res matches Ok(branches) ==> is_ordered(branches.deep_view()) && all_listed(
            branches.deep_view(),
        ) && marked_as_one(branches.deep_view()),
        res matches Err(e) ==> is_branch_listing_failure(e.kind) && e.worded(),
{
    let repo = match open_at(repo_path) {
        Ok(r) => r,
        Err(e) => {
            return Err(e);
        },
    };
    let current = match get_current_branch(repo_path) {
        Ok(name) => Some(name),
        Err(_) => None,
    };
    let mut listing: Vec<Branch> = Vec::new();
    match collect_branches(&repo, BranchScope::Local, &current, &mut listing) {
        Ok(()) => {},
        Err(e) => {
            return Err(e);
        },
    }
    let ghost locals = listing.deep_view();
    match collect_branches(&repo, BranchScope::Remote, &current, &mut listing) {
        Ok(()) => {},
        Err(e) => {
            return Err(e);
        },
    }
    let ghost unsorted = listing.deep_view();
    let sorted = sort_branches(listing);
    proof {
        assert forall|i: int| 0 <= i < unsorted.len() implies is_entry(
            #[trigger] unsorted[i],
            current.deep_view(),
        ) by {
            if i < locals.len() {
                assert(unsorted[i] == locals[i]);
            }
        }
        lemma_permutation_keeps_entries(unsorted, sorted.deep_view(), current.deep_view());
        assert(all_entries(sorted.deep_view(), current.deep_view()));
    }
    Ok(sorted)
}

/// A listing with the branches of another whose branches are all entries
/// holds entries only, which are listed branches.
proof fn lemma_permutation_keeps_entries(
    before: Seq<BranchView>,
    after: Seq<BranchView>,
    current: Option<Seq<char>>,
)
    requires
        all_entries(before, current),
        after.to_multiset() == before.to_multiset(),
    ensures
        all_entries(after, current),
        all_listed(after),
{
    broadcast use vstd::seq_lib::group_to_multiset_ensures;

    assert forall|i: int| 0 <= i < after.len() implies is_entry(#[trigger] after[i], current) by {
        assert(before.to_multiset().count(after[i]) > 0);
    }
}

/// The verdict of the guard of a checkout on a status list: a failure
/// where the list holds a change that a checkout would overwrite, which
/// says that there are uncommitted changes.
pub fn guard_checkout(statuses: &git2::Statuses<'_>) -> (res: Result<(), GitError>)
    ensures
        res is Err <==> blocks_checkout(status_entries(*statuses)),
        res matches Err(e) ==> e.kind == ErrorKind::UncommittedChangesConflict && e.text@
            == conflict_text(),
{
    if has_blocking_change(statuses) {
        Err(
            GitError::new(
                ErrorKind::UncommittedChangesConflict,
                "Cannot switch branches: you have uncommitted changes that would be overwritten",
            ),
        )
    } else {
        Ok(())
    }
}

/// Points the head at the local branch `branch_name` and overwrites the
/// working tree with the tree of that branch. This is the step past the
/// guard: it is taken only with a status list that the guard has let
/// through.
fn switch_to(repo: &git2::Repository, guarded: &git2::Statuses<'_>, branch_name: &str) -> (res:
    Result<(), GitError>)
    requires
        !blocks_checkout(status_entries(*guarded)),
    ensures
        res matches Err(e) ==> (e.kind == ErrorKind::BranchNotFound || e.kind
            == ErrorKind::Backend) && e.says_branch_not_found(branch_name@),
{
    let branch = match repo_find_local_branch(repo, branch_name) {
        Ok(b) => b,
        Err(e) => {
            let context = "Branch '".to_owned().concat(branch_name).concat("' not found");
            return Err(GitError::from_backend(ErrorKind::BranchNotFound, context.as_str(), &e));
        },
    };
    let reference = branch_into_reference(branch);
    let refname = match reference_name(&reference) {
        Some(n) => n,
        None => {
            return Err(
                GitError::new(ErrorKind::Backend, "Branch reference name is not valid UTF-8"),
            );
        },
    };
    match repo_set_head(repo, refname.as_str()) {
        Ok(()) => {},
        Err(e) => {
            return Err(GitError::from_backend(ErrorKind::Backend, "Failed to set HEAD", &e));
        },
    }
    let tree = match reference_peel_to_tree(&reference) {
        Ok(t) => t,
        Err(e) => {
            return Err(GitError::from_backend(ErrorKind::Backend, "Failed to get tree", &e));
        },
    };
    let mut options = checkout_options();
    checkout_options_force(&mut options);
    match repo_checkout_tree(repo, &tree, &mut options) {
        Ok(()) => Ok(()),
        Err(e) => Err(GitError::from_backend(ErrorKind::Backend, "Failed to checkout", &e)),
    }
}

/// The kinds of failure of a checkout.
pub open spec fn is_checkout_failure(kind: ErrorKind) -> bool {
    kind == ErrorKind::RepositoryNotFound || kind == ErrorKind::UncommittedChangesConflict || kind
        == ErrorKind::BranchNotFound || kind == ErrorKind::Backend
}

/// Checks out the local branch `branch_name` in a repository with the
/// status list `statuses`. The guard comes first: where the list holds a
/// path that is modified or deleted, staged or not, the checkout is refused
/// as a conflict, whatever the branch, and nothing is asked of the
/// repository. Nothing else is refused as a conflict. Past the guard the
/// head is pointed at the branch and the working tree is overwritten with
/// its tree.
pub fn checkout_guarded(repo: &git2::Repository, statuses: &git2::Statuses<'_>, branch_name: &str)
    -> (res: Result<(), GitError>)
    ensures
        blocks_checkout(status_entries(*statuses)) <==> (res matches Err(e) && e.kind
            == ErrorKind::UncommittedChangesConflict),
        res matches Err(e) ==> is_checkout_failure(e.kind) && e.kind
            != ErrorKind::RepositoryNotFound && e.worded() && e.says_branch_not_found(
            branch_name@,
        ),
{
    match guard_checkout(statuses) {
        Ok(()) => switch_to(repo, statuses, branch_name),
        Err(e) => Err(e),
    }
}

/// Checks out the local branch `branch_name` in the repository at
/// `repo_path`. The guard comes first: where a path is modified or
/// deleted, staged or not, nothing is changed and the checkout is refused
/// with a message that says so. New files do not stop it. Then the head is
/// pointed at the branch and the working tree is overwritten with its tree.
pub fn checkout_branch(repo_path: &str, branch_name: &str) -> (res: Result<(), GitError>)
    ensures
        res matches Err(e) ==> is_checkout_failure(e.kind) && e.worded()
            && e.says_branch_not_found(branch_name@),
{
    let repo = match open_at(repo_path) {
        Ok(r) => r,
        Err(e) => {
            return Err(e);
        },
    };
    let statuses = match repo_statuses(&repo) {
        Ok(s) => s,
        Err(e) => {
            return Err(GitError::from_backend(ErrorKind::Backend, "Failed to get status", &e));
        },
    };
    checkout_guarded(&repo, &statuses, branch_name)
}

/// The summary of a repository from its working directory, the name of
/// that directory and the current branch; the name is `unknown` where the
/// directory has none.
pub fn make_repo_info(path: String, directory: Option<String>, branch: String) -> (info: RepoInfo)
    ensures
        info.path@ == path@,
        info.branch@ == branch@,
        info.name@ == (match directory {
            Some(name) => name@,
            None => "unknown"@,
        }),
{
    let name = match directory {
        Some(name) => name,
        None => "unknown".to_owned(),
    };
    RepoInfo { path, name, branch }
}

/// The name of the directory with the path `path`: its last component,
/// or `unknown` where it has none.
pub open spec fn directory_name(path: Seq<char>) -> Seq<char> {
    match file_name_of(path) {
        Some(name) => name,
        None => "unknown"@,
    }
}

/// The kinds of failure of the validation of a repository.
pub open spec fn is_validation_failure(kind: ErrorKind) -> bool {
    kind == ErrorKind::NotARepository || is_head_failure(kind)
}

/// Validates that `path` is a repository with a working directory and
/// gives its summary: the working directory, the name of that directory
/// and the current branch.
pub fn validate_repo(path: &str) -> (res: Result<RepoInfo, GitError>)
    ensures
        res matches Ok(info) ==> info.name@ == directory_name(info.path@),
        res matches Err(e) ==> is_validation_failure(e.kind) && e.worded(),
{
    let repo = match open_repository(path) {
        Ok(r) => r,
        Err(e) => {
            return Err(
                GitError::from_backend(
                    ErrorKind::NotARepository,
                    "Not a valid git repository",
                    &e,
                ),
            );
        },
    };
    let workdir = match repo_workdir(&repo) {
        Some(dir) => dir,
        None => {
            return Err(
                GitError::new(
                    ErrorKind::NotARepository,
                    "Repository has no working directory (bare repo)",
                ),
            );
        },
    };
    let directory = path_file_name(workdir.as_str());
    let branch = match get_current_branch(path) {
        Ok(b) => b,
        Err(e) => {
            return Err(e);
        },
    };
    Ok(make_repo_info(workdir, directory, branch))
}

} // verus!
