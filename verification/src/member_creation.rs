//! Creating a member: the member is inserted, then its summary is appended to
//! its organization's list.
//!
//! The store has no transaction that spans both writes, and none is pretended.
//! The member is durable as soon as the insert is answered. If the append then
//! matches no organization, or is not answered, the member stays where it is,
//! without a summary: nothing is taken back. The caller is told `NotFound` of
//! the organization in both cases, as when the lookup found none. So a caller
//! who is told `NotFound` cannot know whether the member was inserted, and one
//! who is told of success knows that both writes were made.
use crate::id::{is_hex_id, parsed, Id};
use crate::integrity::{collection, collection_of, confirm, confirmation};
use crate::model::{Member, MemberSummary, MemberSummaryView, MemberView};
use crate::protocol::{
    Failure, Fault, Progress, ProgressView, Reference, Reply, Request, RequestView,
};
use vstd::prelude::*;

verus! {

/// The state of a creation, by the request that is out: the lookup of the
/// organization, the insert of the member, or the append of its summary.
pub enum CreationView {
    Looking { member: MemberView },
    Inserting { organization_id: Id, name: Seq<char> },
    Synchronizing { summary: MemberSummaryView },
}

/// The member that a creation is asked to make, if `organization_id` spells an
/// identifier.
pub open spec fn drafted_member(
    organization_id: Seq<char>,
    name: Seq<char>,
    active: Option<bool>,
    created_time: i64,
) -> Option<MemberView> {
    if is_hex_id(organization_id) {
        Some(
            MemberView {
                id: None,
                organization_id: parsed(organization_id),
                name,
                active: match active {
                    Some(a) => a,
                    None => true,
                },
                created_time,
            },
        )
    } else {
        None
    }
}

/// How a creation begins. A malformed `organization_id` ends it at once, and
/// the store is not asked; otherwise the organization is looked up.
pub open spec fn creation_start(
    organization_id: Seq<char>,
    name: Seq<char>,
    active: Option<bool>,
    created_time: i64,
) -> ProgressView<CreationView, MemberSummaryView> {
    match drafted_member(organization_id, name, active, created_time) {
        None => ProgressView::Finished(
            Err(Failure::InvalidArgument(Reference::Organization)),
        ),
        Some(member) => ProgressView::Continue(
            CreationView::Looking { member },
            RequestView::Find {
                collection: collection_of(Reference::Organization),
                id: member.organization_id,
            },
        ),
    }
}

/// What a creation does with the reply to the request it has out.
///
/// The member is inserted only once the store has found the organization. The
/// summary is appended only once the store has inserted the member, under the
/// id the store gave it. The creation succeeds only if the append matched an
/// organization; any other reply to the append ends it with `NotFound` of the
/// organization, the member staying inserted.
pub open spec fn creation_step(c: CreationView, reply: Reply) -> ProgressView<
    CreationView,
    MemberSummaryView,
> {
    match c {
        CreationView::Looking { member } => match confirmation(Reference::Organization, reply) {
            Ok(_) => ProgressView::Continue(
                CreationView::Inserting {
                    organization_id: member.organization_id,
                    name: member.name,
                },
                RequestView::InsertMember(member),
            ),
            Err(failure) => ProgressView::Finished(Err(failure)),
        },
        CreationView::Inserting { organization_id, name } => match reply {
            Reply::Inserted(id) => ProgressView::Continue(
                CreationView::Synchronizing { summary: MemberSummaryView { id, name } },
                RequestView::AppendMember {
                    organization_id,
                    summary: MemberSummaryView { id, name },
                },
            ),
            _ => ProgressView::Finished(Err(Failure::Internal(Fault::Insert))),
        },
        CreationView::Synchronizing { summary } => match reply {
            Reply::Updated(matched) => if matched >= 1 {
                ProgressView::Finished(Ok(summary))
            } else {
                ProgressView::Finished(Err(Failure::NotFound(Reference::Organization)))
            },
            _ => ProgressView::Finished(Err(Failure::NotFound(Reference::Organization))),
        },
    }
}

/// Where a creation that began at `start` stands after the replies `replies`,
/// one per request, in order. Replies after its end are not looked at.
pub open spec fn creation_run(
    start: ProgressView<CreationView, MemberSummaryView>,
    replies: Seq<Reply>,
) -> ProgressView<CreationView, MemberSummaryView>
    decreases replies.len(),
{
    if replies.len() == 0 {
        start
    } else {
        match creation_run(start, replies.drop_last()) {
            ProgressView::Continue(c, _) => creation_step(c, replies.last()),
            ProgressView::Finished(r) => ProgressView::Finished(r),
        }
    }
}

#[derive(Debug)]
enum State {
    Looking(Member),
    Inserting { organization_id: Id, name: String },
    Synchronizing(MemberSummary),
}

/// The creation of one member, between two requests.
#[derive(Debug)]
pub struct MemberCreation {
    state: State,
}

impl View for MemberCreation {
    type V = CreationView;

    closed spec fn view(&self) -> CreationView {
        match self.state {
            State::Looking(member) => CreationView::Looking { member: member@ },
            State::Inserting { organization_id, name } => CreationView::Inserting {
                organization_id,
                name: name@,
            },
            State::Synchronizing(summary) => CreationView::Synchronizing { summary: summary@ },
        }
    }
}

/// The value of a step's result.
pub open spec fn progress_view(p: Progress<MemberCreation, MemberSummary>) -> ProgressView<
    CreationView,
    MemberSummaryView,
> {
    match p {
        Progress::Continue(m, r) => ProgressView::Continue(m@, r@),
        Progress::Finished(Ok(summary)) => ProgressView::Finished(Ok(summary@)),
        Progress::Finished(Err(failure)) => ProgressView::Finished(Err(failure)),
    }
}

impl MemberCreation {
    /// Begins the creation of a member of the organization that
    /// `organization_id` spells.
    pub fn start(organization_id: &str, name: String, active: Option<bool>, created_time: i64) -> (p:
        Progress<MemberCreation, MemberSummary>)
        ensures
            progress_view(p) == creation_start(organization_id@, name@, active, created_time),
    {
        match Id::parse(organization_id) {
            None => Progress::Finished(
                Err(Failure::InvalidArgument(Reference::Organization)),
            ),
            Some(id) => {
                let member = Member::new(id, name, active, created_time);
                let request = Request::Find {
                    collection: collection(Reference::Organization),
                    id,
                };
                Progress::Continue(MemberCreation { state: State::Looking(member) }, request)
            },
        }
    }

    /// Takes the reply to the request that is out.
    pub fn advance(self, reply: Reply) -> (p: Progress<MemberCreation, MemberSummary>)
        ensures
            progress_view(p) == creation_step(self@, reply),
    {
        match self.state {
            State::Looking(member) => match confirm(Reference::Organization, reply) {
                Ok(_) => {
                    let state = State::Inserting {
                        organization_id: member.organization_id,
                        name: member.name.clone(),
                    };
                    Progress::Continue(MemberCreation { state }, Request::InsertMember(member))
                },
                Err(failure) => Progress::Finished(Err(failure)),
            },
            State::Inserting { organization_id, name } => match reply {
                Reply::Inserted(id) => {
                    let summary = MemberSummary { id, name: name.clone() };
                    let request = Request::AppendMember {
                        organization_id,
                        summary: MemberSummary { id, name },
                    };
                    Progress::Continue(
                        MemberCreation { state: State::Synchronizing(summary) },
                        request,
                    )
                },
                _ => Progress::Finished(Err(Failure::Internal(Fault::Insert))),
            },
            State::Synchronizing(summary) => match reply {
                Reply::Updated(matched) => {
                    if matched >= 1 {
                        Progress::Finished(Ok(summary))
                    } else {
                        Progress::Finished(Err(Failure::NotFound(Reference::Organization)))
                    }
                },
                _ => Progress::Finished(Err(Failure::NotFound(Reference::Organization))),
            },
        }
    }
}

/// A member is created only in an organization that the store found: a
/// creation that succeeded had a well-formed organization id, and was told
/// `Found(true)` of that organization, then `Inserted`, then that the append
/// matched.
pub proof fn law_success_needs_found_organization(
    organization_id: Seq<char>,
    name: Seq<char>,
    active: Option<bool>,
    created_time: i64,
    replies: Seq<Reply>,
)
    requires
        creation_run(
            creation_start(organization_id, name, active, created_time),
            replies,
        ) matches ProgressView::Finished(r) && r is Ok,
    ensures
        is_hex_id(organization_id),
        replies.len() >= 3,
        replies[0] == Reply::Found(true),
        replies[1] is Inserted,
        replies[2] matches Reply::Updated(matched) && matched >= 1,
{
    lemma_run_shape(organization_id, name, active, created_time, replies);
}

/// A creation's insert goes out only after the store has found the
/// organization, and its append only after the store has inserted the member.
pub proof fn law_writes_in_order(
    organization_id: Seq<char>,
    name: Seq<char>,
    active: Option<bool>,
    created_time: i64,
    replies: Seq<Reply>,
)
    requires
        creation_run(
            creation_start(organization_id, name, active, created_time),
            replies,
        ) is Continue,
    ensures
        match creation_run(
            creation_start(organization_id, name, active, created_time),
            replies,
        )->Continue_1 {
            RequestView::Find { .. } => replies.len() == 0,
            RequestView::InsertMember(_) => replies.len() == 1 && replies[0] == Reply::Found(true),
            RequestView::AppendMember { .. } => {
                &&& replies.len() == 2
                &&& replies[0] == Reply::Found(true)
                &&& replies[1] is Inserted
            },
            _ => false,
        },
{
    lemma_run_shape(organization_id, name, active, created_time, replies);
}

/// Where a run can stand, by the number of replies it has taken.
proof fn lemma_run_shape(
    organization_id: Seq<char>,
    name: Seq<char>,
    active: Option<bool>,
    created_time: i64,
    replies: Seq<Reply>,
)
    ensures
        !is_hex_id(organization_id) ==> creation_run(
            creation_start(organization_id, name, active, created_time),
            replies,
        ) == ProgressView::<CreationView, MemberSummaryView>::Finished(
            Err(Failure::InvalidArgument(Reference::Organization)),
        ),
        match creation_run(creation_start(organization_id, name, active, created_time), replies) {
            ProgressView::Continue(c, request) => match c {
                CreationView::Looking { .. } => replies.len() == 0 && request is Find,
                CreationView::Inserting { .. } => {
                    &&& replies.len() == 1
                    &&& replies[0] == Reply::Found(true)
                    &&& request is InsertMember
                },
                CreationView::Synchronizing { .. } => {
                    &&& replies.len() == 2
                    &&& replies[0] == Reply::Found(true)
                    &&& replies[1] is Inserted
                    &&& request is AppendMember
                },
            },
            ProgressView::Finished(r) => r is Ok ==> {
                &&& is_hex_id(organization_id)
                &&& replies.len() >= 3
                &&& replies[0] == Reply::Found(true)
                &&& replies[1] is Inserted
                &&& (replies[2] matches Reply::Updated(matched) && matched >= 1)
            },
        },
    decreases replies.len(),
{
    if replies.len() > 0 {
        let before = replies.drop_last();
        lemma_run_shape(organization_id, name, active, created_time, before);
        assert(forall|j: int| 0 <= j < before.len() ==> before[j] == replies[j]);
        assert(replies.last() == replies[before.len() as int]);
    }
}

} // verus!
