//! What holds of the library as a whole.
//!
//! [`descriptions`] says what is read out of the server's description of a track, [`sharing`] what
//! each call does to what handles share. The laws here are on any calls, and on several of them.

pub mod descriptions;
pub mod sharing;

use vstd::prelude::*;

use crate::handle::{PublicationRef, TrackRef};
use crate::id;
use crate::info::{PublicationEvents, PublicationInfoView};
use crate::preservation;
use crate::proto;
use crate::proto::TrackInfoView;
use crate::state::{PublicationState, RegistryState};

verus! {

/// A call that may change what handles share. These are all such calls.
pub enum Operation<H> {
    AddTrack(bool, Seq<char>),
    CloneTrack(TrackRef),
    DropTrack(TrackRef),
    AddPublication(bool, TrackInfoView, Option<TrackRef>),
    ClonePublication(PublicationRef),
    DropPublication(PublicationRef),
    SetTrack(PublicationRef, Option<TrackRef>),
    UpdateInfo(PublicationRef, TrackInfoView),
    OnMuted(PublicationRef, H),
    OnUnmuted(PublicationRef, H),
    /// `upgrade` of a weak handle on the publication.
    Upgrade(PublicationRef),
    /// `track` of the publication.
    GetTrack(PublicationRef),
    TrackMuted(TrackRef),
    TrackUnmuted(TrackRef),
}

impl<H> RegistryState<H> {
    /// Whether the call may be made.
    pub open spec fn allows(self, operation: Operation<H>) -> bool {
        match operation {
            Operation::AddTrack(remote, sid) => self.next < u64::MAX && id::valid_track_sid(sid),
            Operation::CloneTrack(track) => self.track_alive(track),
            Operation::DropTrack(track) => self.track_held(track),
            Operation::AddPublication(remote, info, track) => {
                &&& self.next < u64::MAX
                &&& info.publishable()
                &&& track is Some ==> self.track_held(track->0)
                &&& track is Some && remote ==> track->0.remote
            },
            Operation::ClonePublication(publication) => self.alive(publication),
            Operation::DropPublication(publication) => self.alive(publication),
            Operation::SetTrack(publication, track) => {
                &&& self.alive(publication)
                &&& track is Some ==> self.track_held(track->0)
                &&& track is Some && publication.remote ==> track->0.remote
            },
            Operation::UpdateInfo(publication, info) => self.alive(publication)
                && info.publishable(),
            Operation::OnMuted(publication, handler) => self.alive(publication),
            Operation::OnUnmuted(publication, handler) => self.alive(publication),
            Operation::Upgrade(publication) => true,
            Operation::GetTrack(publication) => self.alive(publication),
            Operation::TrackMuted(track) => self.track_alive(track),
            Operation::TrackUnmuted(track) => self.track_alive(track),
        }
    }

    /// One more handle on the publication, if there is one.
    pub open spec fn cloned_if_any(self, publication: Option<PublicationRef>) -> Self {
        match publication {
            Some(p) => self.cloned_publication(p),
            None => self,
        }
    }

    /// What the call makes of the state.
    pub open spec fn after(self, operation: Operation<H>) -> Self {
        match operation {
            Operation::AddTrack(remote, sid) => self.added_track(remote, sid),
            Operation::CloneTrack(track) => self.cloned_track(track),
            Operation::DropTrack(track) => self.dropped_track(track),
            Operation::AddPublication(remote, info, track) => self.added_publication(
                remote,
                PublicationInfoView::described(info, track),
            ),
            Operation::ClonePublication(publication) => self.cloned_publication(publication),
            Operation::DropPublication(publication) => self.dropped_publication(publication),
            Operation::SetTrack(publication, track) => self.set_track(publication, track),
            Operation::UpdateInfo(publication, info) => self.updated_info(publication, info),
            Operation::OnMuted(publication, handler) => self.with_muted_handler(
                publication,
                handler,
            ),
            Operation::OnUnmuted(publication, handler) => self.with_unmuted_handler(
                publication,
                handler,
            ),
            Operation::Upgrade(publication) => self.cloned_if_any(self.upgraded(publication)),
            Operation::GetTrack(publication) => match self.publications[publication.key].info.track {
                Some(track) => self.cloned_track(track),
                None => self,
            },
            Operation::TrackMuted(track) => self.cloned_if_any(self.due_muted(track)),
            Operation::TrackUnmuted(track) => self.cloned_if_any(self.due_unmuted(track)),
        }
    }

    /// What the calls make of the state, one after the other.
    pub open spec fn after_all(self, operations: Seq<Operation<H>>) -> Self
        decreases operations.len(),
    {
        if operations.len() == 0 {
            self
        } else {
            self.after_all(operations.drop_last()).after(operations.last())
        }
    }

    /// Whether the calls may be made, one after the other.
    pub open spec fn allows_all(self, operations: Seq<Operation<H>>) -> bool
        decreases operations.len(),
    {
        operations.len() == 0 || {
            &&& self.allows_all(operations.drop_last())
            &&& self.after_all(operations.drop_last()).allows(operations.last())
        }
    }
}

/// One more handle on a publication keeps the invariant.
proof fn lemma_cloned_publication_inv<H>(s: RegistryState<H>, publication: PublicationRef)
    requires
        s.inv(),
        s.alive(publication),
    ensures
        s.cloned_publication(publication).inv(),
{
    let p = s.publications[publication.key];
    assert(s.publication_inv(publication.key));
    preservation::lemma_with_publication_inv(
        s,
        publication.key,
        PublicationState { handles: p.handles + 1, ..p },
    );
}

/// Every call keeps the invariant.
pub proof fn law_every_operation_keeps_the_invariant<H>(
    s: RegistryState<H>,
    operation: Operation<H>,
)
    requires
        s.inv(),
        s.allows(operation),
    ensures
        s.after(operation).inv(),
{
    match operation {
        Operation::AddTrack(remote, sid) => preservation::lemma_added_track_inv(s, remote, sid),
        Operation::CloneTrack(track) => preservation::lemma_cloned_track_inv(s, track),
        Operation::DropTrack(track) => preservation::lemma_dropped_track_inv(s, track),
        Operation::AddPublication(remote, info, track) => preservation::lemma_added_publication_inv(
            s,
            remote,
            PublicationInfoView::described(info, track),
        ),
        Operation::ClonePublication(publication) => lemma_cloned_publication_inv(s, publication),
        Operation::DropPublication(publication) => preservation::lemma_dropped_publication_inv(
            s,
            publication,
        ),
        Operation::SetTrack(publication, track) => preservation::lemma_set_track_inv(
            s,
            publication,
            track,
        ),
        Operation::UpdateInfo(publication, info) => preservation::lemma_updated_info_inv(
            s,
            publication,
            info,
        ),
        Operation::OnMuted(publication, handler) => {
            let p = s.publications[publication.key];
            assert(s.publication_inv(publication.key));
            preservation::lemma_with_publication_inv(
                s,
                publication.key,
                PublicationState {
                    events: PublicationEvents { muted: Some(handler), ..p.events },
                    ..p
                },
            );
        },
        Operation::OnUnmuted(publication, handler) => {
            let p = s.publications[publication.key];
            assert(s.publication_inv(publication.key));
            preservation::lemma_with_publication_inv(
                s,
                publication.key,
                PublicationState {
                    events: PublicationEvents { unmuted: Some(handler), ..p.events },
                    ..p
                },
            );
        },
        Operation::Upgrade(publication) => {
            if s.alive(publication) {
                lemma_cloned_publication_inv(s, publication);
            }
        },
        Operation::GetTrack(publication) => {
            assert(s.publication_inv(publication.key));
            if let Some(track) = s.publications[publication.key].info.track {
                preservation::lemma_cloned_track_inv(s, track);
            }
        },
        Operation::TrackMuted(track) => {
            if let Some(p) = s.due_muted(track) {
                lemma_cloned_publication_inv(s, p);
            }
        },
        Operation::TrackUnmuted(track) => {
            if let Some(p) = s.due_unmuted(track) {
                lemma_cloned_publication_inv(s, p);
            }
        },
    }
}

/// The invariant holds after any calls on a new registry.
pub proof fn law_the_invariant_holds_at_all_times<H>(home: u64, operations: Seq<Operation<H>>)
    requires
        RegistryState::<H>::empty(home).allows_all(operations),
    ensures
        RegistryState::<H>::empty(home).after_all(operations).inv(),
    decreases operations.len(),
{
    if operations.len() > 0 {
        law_the_invariant_holds_at_all_times(home, operations.drop_last());
        law_every_operation_keeps_the_invariant(
            RegistryState::<H>::empty(home).after_all(operations.drop_last()),
            operations.last(),
        );
    }
}

/// The publication that the call is about or hands out.
pub open spec fn subject<H>(s: RegistryState<H>, operation: Operation<H>) -> Option<PublicationRef> {
    match operation {
        Operation::AddTrack(remote, sid) => None,
        Operation::CloneTrack(track) => None,
        Operation::DropTrack(track) => None,
        Operation::AddPublication(remote, info, track) => Some(
            PublicationRef { home: s.home, remote, key: s.next },
        ),
        Operation::ClonePublication(p) => Some(p),
        Operation::DropPublication(p) => Some(p),
        Operation::SetTrack(p, track) => Some(p),
        Operation::UpdateInfo(p, info) => Some(p),
        Operation::OnMuted(p, handler) => Some(p),
        Operation::OnUnmuted(p, handler) => Some(p),
        Operation::Upgrade(p) => s.upgraded(p),
        Operation::GetTrack(p) => None,
        Operation::TrackMuted(track) => s.due_muted(track),
        Operation::TrackUnmuted(track) => s.due_unmuted(track),
    }
}

/// `after` differs from `before` in no publication but `p`, which may be gone.
spec fn differs_in<H>(before: RegistryState<H>, after: RegistryState<H>, p: PublicationRef) -> bool {
    ||| after.publications == before.publications.remove(p.key)
    ||| {
        &&& after.publications == before.publications.insert(p.key, after.publications[p.key])
        &&& after.publications[p.key].remote == p.remote
    }
}

/// Giving a publication a track changes no other publication.
proof fn lemma_set_track_changes<H>(
    s: RegistryState<H>,
    p: PublicationRef,
    track: Option<TrackRef>,
)
    requires
        s.alive(p),
    ensures
        differs_in(s, s.set_track(p, track), p),
        s.set_track(p, track).home == s.home,
        s.set_track(p, track).next == s.next,
{
    let after = s.set_track(p, track);
    assert(after.publications == s.publications.insert(p.key, after.publications[p.key]));
}

/// Taking back a handle on a publication changes no other publication.
proof fn lemma_dropped_publication_changes<H>(s: RegistryState<H>, p: PublicationRef)
    requires
        s.alive(p),
    ensures
        differs_in(s, s.dropped_publication(p), p),
        s.dropped_publication(p).home == s.home,
        s.dropped_publication(p).next == s.next,
{
    let after = s.dropped_publication(p);
    if s.publications[p.key].handles == 1 {
        assert(after.publications == s.publications.remove(p.key));
    }
}

/// A call changes or takes away at most the publication it is about.
proof fn lemma_changed_publications<H>(s: RegistryState<H>, operation: Operation<H>)
    requires
        s.inv(),
        s.allows(operation),
    ensures
        s.after(operation).home == s.home,
        s.next <= s.after(operation).next,
        subject(s, operation) matches Some(p) ==> {
            &&& differs_in(s, s.after(operation), p)
            &&& p.home == s.home
            &&& s.alive(p) || operation is AddPublication
        },
        subject(s, operation) is None ==> s.after(operation).publications == s.publications,
{
    let after = s.after(operation);
    match operation {
        Operation::AddTrack(remote, sid) => {},
        Operation::CloneTrack(track) => {},
        Operation::DropTrack(track) => {},
        Operation::AddPublication(remote, info, track) => {
            assert(after.publications == s.publications.insert(
                s.next,
                after.publications[s.next],
            ));
        },
        Operation::ClonePublication(p) => {
            assert(differs_in(s, after, p));
        },
        Operation::DropPublication(p) => lemma_dropped_publication_changes(s, p),
        Operation::SetTrack(p, track) => lemma_set_track_changes(s, p, track),
        Operation::UpdateInfo(p, info) => {
            assert(differs_in(s, after, p));
        },
        Operation::OnMuted(p, handler) => {
            assert(differs_in(s, after, p));
        },
        Operation::OnUnmuted(p, handler) => {
            assert(differs_in(s, after, p));
        },
        Operation::Upgrade(p) => {
            assert(s.alive(p) ==> differs_in(s, after, p));
        },
        Operation::GetTrack(p) => {},
        Operation::TrackMuted(track) => {
            if let Some(p) = s.due_muted(track) {
                assert(differs_in(s, after, p));
            }
        },
        Operation::TrackUnmuted(track) => {
            if let Some(p) = s.due_unmuted(track) {
                assert(differs_in(s, after, p));
            }
        },
    }
}

/// Every publication of `after` that is not new was one before, on the same side.
spec fn nothing_came_back<H>(before: RegistryState<H>, after: RegistryState<H>) -> bool {
    &&& before.next <= after.next
    &&& forall|key: u64|
        key < before.next && #[trigger] after.publications.contains_key(key)
            ==> before.publications.contains_key(key) && before.publications[key].remote
            == after.publications[key].remote
}

/// A call brings back nothing that is gone.
proof fn lemma_nothing_comes_back<H>(s: RegistryState<H>, operation: Operation<H>)
    requires
        s.inv(),
        s.allows(operation),
    ensures
        nothing_came_back(s, s.after(operation)),
{
    lemma_changed_publications(s, operation);
}

/// A publication that has been released never comes back, whatever is called: no weak handle on
/// it is upgraded any more, to it or to any other publication.
pub proof fn law_released_publication_stays_released<H>(
    s: RegistryState<H>,
    operations: Seq<Operation<H>>,
    p: PublicationRef,
)
    requires
        s.inv(),
        s.allows_all(operations),
        p.key < s.next,
        !s.alive(p),
    ensures
        !s.after_all(operations).alive(p),
        s.after_all(operations).upgraded(p) is None,
        s.after_all(operations).inv(),
        s.next <= s.after_all(operations).next,
    decreases operations.len(),
{
    if operations.len() > 0 {
        let before = s.after_all(operations.drop_last());
        law_released_publication_stays_released(s, operations.drop_last(), p);
        law_every_operation_keeps_the_invariant(before, operations.last());
        lemma_nothing_comes_back(before, operations.last());
    }
}

/// By how many the call changes the number of handles on the publication: it gives one out or
/// takes one back.
pub open spec fn handle_change<H>(
    s: RegistryState<H>,
    operation: Operation<H>,
    p: PublicationRef,
) -> int {
    match operation {
        Operation::DropPublication(q) => if q == p {
            -1
        } else {
            0
        },
        Operation::ClonePublication(_)
        | Operation::Upgrade(_)
        | Operation::TrackMuted(_)
        | Operation::TrackUnmuted(_) => if subject(s, operation) == Some(p) {
            1
        } else {
            0
        },
        _ => 0,
    }
}

/// A publication lives exactly as long as there are handles on it. Giving it a track, which from
/// then on calls back to it, is no handle and does not prolong its life.
pub proof fn law_only_handles_keep_a_publication_alive<H>(
    s: RegistryState<H>,
    operation: Operation<H>,
    p: PublicationRef,
)
    requires
        s.inv(),
        s.allows(operation),
        s.alive(p),
    ensures
        ({
            let left = s.publications[p.key].handles + handle_change(s, operation, p);
            let after = s.after(operation);
            &&& left >= 1 ==> after.alive(p) && after.publications[p.key].handles == left
            &&& left == 0 ==> !after.alive(p)
            &&& left >= 0
        }),
{
    assert(s.publication_inv(p.key));
    lemma_changed_publications(s, operation);
    let after = s.after(operation);
    if let Some(q) = subject(s, operation) {
        assert(q.key == p.key ==> q == p);
        if let Operation::SetTrack(q, track) = operation {
            assert(after.publications[q.key].handles == s.publications[q.key].handles);
        }
    }
}

/// Whether a handle in the call is of a registry of another home.
pub open spec fn uses_foreign_handle<H>(s: RegistryState<H>, operation: Operation<H>) -> bool {
    match operation {
        Operation::AddTrack(remote, sid) => false,
        Operation::AddPublication(remote, info, track) => track is Some && track->0.home != s.home,
        Operation::SetTrack(p, track) => p.home != s.home || (track is Some && track->0.home
            != s.home),
        Operation::CloneTrack(t)
        | Operation::DropTrack(t)
        | Operation::TrackMuted(t)
        | Operation::TrackUnmuted(t) => t.home != s.home,
        Operation::ClonePublication(p)
        | Operation::DropPublication(p)
        | Operation::UpdateInfo(p, _)
        | Operation::OnMuted(p, _)
        | Operation::OnUnmuted(p, _)
        | Operation::Upgrade(p)
        | Operation::GetTrack(p) => p.home != s.home,
    }
}

/// A registry accepts no handle of one of another home, and upgrades none: what is shared in a
/// registry cannot be changed, kept or released through handles of another.
pub proof fn law_handles_of_other_registries_are_refused<H>(
    s: RegistryState<H>,
    operation: Operation<H>,
)
    requires
        uses_foreign_handle(s, operation),
    ensures
        operation is Upgrade ==> s.after(operation) == s,
        operation !is Upgrade ==> !s.allows(operation),
{
}

/// A handle stays one of the registry that has given it out.
pub proof fn law_home_never_changes<H>(s: RegistryState<H>, operation: Operation<H>)
    requires
        s.inv(),
        s.allows(operation),
    ensures
        s.after(operation).home == s.home,
        subject(s, operation) matches Some(p) ==> p.home == s.home,
{
    lemma_changed_publications(s, operation);
}

/// A call changes nothing of a publication that it is not about: publications share nothing.
pub proof fn law_other_publications_are_left_alone<H>(
    s: RegistryState<H>,
    operation: Operation<H>,
    p: PublicationRef,
)
    requires
        s.inv(),
        s.allows(operation),
        s.alive(p),
        subject(s, operation) != Some(p),
    ensures
        s.after(operation).alive(p),
        s.after(operation).publications[p.key] == s.publications[p.key],
{
    assert(s.publication_inv(p.key));
    lemma_changed_publications(s, operation);
    if let Some(q) = subject(s, operation) {
        assert(q.key == p.key ==> q == p);
    }
}

/// A new publication is none of those before, has one handle and no callbacks, and is known by
/// its description and track.
pub proof fn law_new_publication_is_of_its_own<H>(
    s: RegistryState<H>,
    remote: bool,
    info: TrackInfoView,
    track: Option<TrackRef>,
)
    requires
        s.inv(),
        s.allows(Operation::AddPublication(remote, info, track)),
    ensures
        ({
            let after = s.after(Operation::AddPublication(remote, info, track));
            let p = PublicationRef { home: s.home, remote, key: s.next };
            &&& !s.publications.contains_key(p.key)
            &&& after.alive(p)
            &&& after.publications[p.key] == PublicationState {
                remote,
                handles: 1,
                info: PublicationInfoView::described(info, track),
                events: PublicationEvents::<H> { muted: None, unmuted: None },
            }
            &&& after.publications.remove(p.key) == s.publications
        }),
{
    let after = s.after(Operation::AddPublication(remote, info, track));
    if s.publications.contains_key(s.next) {
        assert(s.publication_inv(s.next));
    }
    assert(after.publications.remove(s.next) =~= s.publications);
}

/// Handles on one publication, clones and upgraded ones alike, share all of it: what is set
/// through one of them is read through the other, and reading changes nothing that is read.
pub proof fn law_handles_on_one_publication_share_it<H>(
    s: RegistryState<H>,
    p: PublicationRef,
    track: Option<TrackRef>,
)
    requires
        s.inv(),
        s.alive(p),
        s.allows(Operation::SetTrack(p, track)),
    ensures
        ({
            let with_two = s.after(Operation::Upgrade(p));
            let set = with_two.after(Operation::SetTrack(with_two.upgraded(p)->0, track));
            &&& with_two == s.after(Operation::ClonePublication(p))
            &&& with_two.upgraded(p) == Some(p)
            &&& with_two.publications[p.key].info == s.publications[p.key].info
            &&& with_two.publications[p.key].events == s.publications[p.key].events
            &&& set.publications[p.key].info.track == track
            &&& set.after(Operation::GetTrack(p)).publications == set.publications
        }),
{
}

/// A weak handle on a live publication is upgraded to a handle on that publication.
pub proof fn law_weak_handle_leads_back<H>(s: RegistryState<H>, p: PublicationRef)
    requires
        s.alive(p),
    ensures
        s.upgraded(p) == Some(p),
        s.cloned_publication(p).upgraded(p) == Some(p),
{
}

/// With its last handle a publication is released: no weak handle on it is upgraded any more, and
/// no track tells it of a mute or unmute.
pub proof fn law_last_handle_releases_the_publication<H>(s: RegistryState<H>, p: PublicationRef)
    requires
        s.inv(),
        s.alive(p),
        s.publications[p.key].handles == 1,
    ensures
        ({
            let after = s.dropped_publication(p);
            &&& !after.alive(p)
            &&& after.upgraded(p) is None
            &&& forall|t: TrackRef|
                after.track_alive(t) ==> #[trigger] after.due_muted(t) != Some(p)
                    && after.due_unmuted(t) != Some(p)
        }),
{
}

/// A track that outlives the publication it told of a mute keeps the callbacks of that publication
/// and calls them no more.
pub proof fn law_callbacks_stay_with_the_track<H>(
    s: RegistryState<H>,
    p: PublicationRef,
    t: TrackRef,
)
    requires
        s.inv(),
        s.alive(p),
        s.publications[p.key].info.track == Some(t),
        s.publications[p.key].handles == 1,
        s.tracks[t.key].muted == Some(p),
        s.tracks[t.key].handles + s.tracks[t.key].holders > 1,
    ensures
        ({
            let after = s.dropped_publication(p);
            &&& after.track_alive(t)
            &&& after.tracks[t.key].kept == Some(s.publications[p.key].events)
            &&& after.due_muted(t) is None
            &&& after.due_unmuted(t) is None
        }),
{
    assert(s.publication_inv(p.key));
    assert(s.track_inv(t.key));
}

/// Callbacks that a track has kept go when it is given to a publication or taken from one; until
/// then it keeps them, whatever else is called.
pub proof fn law_kept_callbacks_go_with_what_called_them<H>(
    s: RegistryState<H>,
    operation: Operation<H>,
    t: TrackRef,
)
    requires
        s.inv(),
        s.allows(operation),
        s.track_alive(t),
        s.tracks[t.key].kept is Some,
        s.after(operation).track_alive(t),
    ensures
        ({
            let after = s.after(operation);
            let touched = operation matches Operation::SetTrack(p, track) && (track == Some(t)
                || s.publications[p.key].info.track == Some(t));
            &&& touched ==> after.tracks[t.key].kept is None
            &&& !touched ==> after.tracks[t.key].kept == s.tracks[t.key].kept
        }),
{
    assert(s.track_inv(t.key));
    match operation {
        Operation::SetTrack(p, track) => {
            assert(s.publication_inv(p.key));
            if let Some(u) = s.publications[p.key].info.track {
                assert(u.key == t.key ==> u == t);
            }
            if let Some(u) = track {
                assert(u.key == t.key ==> u == t);
            }
        },
        Operation::DropPublication(p) => {
            assert(s.publication_inv(p.key));
        },
        _ => {},
    }
}

/// A publication and its track, which calls back to it, are released together when nothing else
/// holds either of them.
pub proof fn law_publication_and_track_are_released_together<H>(
    s: RegistryState<H>,
    p: PublicationRef,
    t: TrackRef,
)
    requires
        s.inv(),
        s.alive(p),
        s.publications[p.key].info.track == Some(t),
        s.publications[p.key].handles == 1,
        s.tracks[t.key].handles == 0,
        s.tracks[t.key].holders == 1,
    ensures
        !s.dropped_publication(p).alive(p),
        !s.dropped_publication(p).track_alive(t),
{
}

/// A track that something else holds outlives the publication.
pub proof fn law_held_track_outlives_the_publication<H>(
    s: RegistryState<H>,
    p: PublicationRef,
    t: TrackRef,
)
    requires
        s.inv(),
        s.alive(p),
        s.publications[p.key].info.track == Some(t),
        s.publications[p.key].handles == 1,
        s.tracks[t.key].handles + s.tracks[t.key].holders > 1,
    ensures
        s.dropped_publication(p).track_alive(t),
        s.dropped_publication(p).tracks[t.key].handles == s.tracks[t.key].handles,
{
    assert(s.publication_inv(p.key));
}

/// A track is released when the last of its handles and holders lets go of it, and not before.
pub proof fn law_last_holder_releases_the_track<H>(s: RegistryState<H>, t: TrackRef)
    requires
        s.inv(),
        s.track_held(t),
    ensures
        s.dropped_track(t).track_alive(t) <==> s.tracks[t.key].handles + s.tracks[t.key].holders
            > 1,
{
}

/// The track that a publication has is alive, whoever else has let go of it.
pub proof fn law_track_of_a_publication_is_alive<H>(s: RegistryState<H>, p: PublicationRef)
    requires
        s.inv(),
        s.alive(p),
    ensures
        s.publications[p.key].info.track matches Some(t) ==> s.track_alive(t),
{
    assert(s.publication_inv(p.key));
}

/// A handle that is given out and taken back leaves everything as it was.
pub proof fn law_drop_undoes_clone<H>(s: RegistryState<H>, p: PublicationRef, t: TrackRef)
    requires
        s.inv(),
    ensures
        s.alive(p) ==> s.cloned_publication(p).dropped_publication(p) == s,
        s.track_alive(t) ==> s.cloned_track(t).dropped_track(t) == s,
{
    if s.alive(p) {
        assert(s.publication_inv(p.key));
        assert(s.cloned_publication(p).dropped_publication(p) =~= s);
    }
    if s.track_alive(t) {
        assert(s.track_inv(t.key));
        assert(s.cloned_track(t).dropped_track(t) =~= s);
    }
}

/// A publication has the track that it was given last, or none, and is known by that track's
/// identifier; when it is given none, it keeps the identifier it had. Nothing else that is known
/// of it changes, and nothing of any other publication.
pub proof fn law_set_track_is_read_back<H>(
    s: RegistryState<H>,
    p: PublicationRef,
    track: Option<TrackRef>,
)
    requires
        s.inv(),
        s.allows(Operation::SetTrack(p, track)),
    ensures
        ({
            let before = s.publications[p.key];
            let after = s.set_track(p, track);
            let sid = match track {
                Some(t) => s.tracks[t.key].sid,
                None => before.info.sid,
            };
            &&& after.publications[p.key] == PublicationState {
                info: PublicationInfoView { track, sid, ..before.info },
                ..before
            }
            &&& after.publications.remove(p.key) == s.publications.remove(p.key)
        }),
{
    let after = s.set_track(p, track);
    assert(after.publications.remove(p.key) =~= s.publications.remove(p.key));
}

/// A track that a publication is given is alive and tells that publication, and no other, of a
/// mute and of an unmute.
pub proof fn law_new_track_tells_the_publication<H>(
    s: RegistryState<H>,
    p: PublicationRef,
    t: TrackRef,
)
    requires
        s.inv(),
        s.allows(Operation::SetTrack(p, Some(t))),
    ensures
        ({
            let publication = s.publications[p.key];
            let after = s.set_track(p, Some(t));
            &&& after.track_alive(t)
            &&& after.due_muted(t) == (if publication.events.muted is Some {
                Some(p)
            } else {
                None
            })
            &&& after.due_unmuted(t) == (if publication.events.unmuted is Some {
                Some(p)
            } else {
                None
            })
        }),
{
    assert(s.publication_inv(p.key));
    if let Some(previous) = s.publications[p.key].info.track {
        preservation::lemma_set_track_counts(s, p, Some(t));
    }
}

/// A track that a publication has given up tells nobody of a mute or unmute.
pub proof fn law_replaced_track_tells_nobody<H>(
    s: RegistryState<H>,
    p: PublicationRef,
    previous: TrackRef,
    track: Option<TrackRef>,
)
    requires
        s.inv(),
        s.allows(Operation::SetTrack(p, track)),
        s.publications[p.key].info.track == Some(previous),
        track is Some ==> track->0.key != previous.key,
    ensures
        ({
            let after = s.set_track(p, track);
            after.track_alive(previous) ==> after.due_muted(previous) is None && after.due_unmuted(
                previous,
            ) is None
        }),
{
}

/// Giving a publication a track touches no tracks but this one and the one it had.
pub proof fn law_set_track_leaves_other_tracks_alone<H>(
    s: RegistryState<H>,
    p: PublicationRef,
    track: Option<TrackRef>,
    other: u64,
)
    requires
        s.inv(),
        s.allows(Operation::SetTrack(p, track)),
        track is Some ==> track->0.key != other,
        !s.publications[p.key].has_track(other),
    ensures
        ({
            let after = s.set_track(p, track);
            &&& after.tracks.contains_key(other) == s.tracks.contains_key(other)
            &&& after.tracks.contains_key(other) ==> after.tracks[other] == s.tracks[other]
        }),
{
}

/// A track tells of a mute or unmute only a publication that has it.
pub proof fn law_only_a_holder_is_told<H>(s: RegistryState<H>, t: TrackRef)
    requires
        s.inv(),
        s.track_alive(t),
    ensures
        s.due_muted(t) matches Some(p) ==> s.alive(p) && s.publications[p.key].has_track(t.key),
        s.due_unmuted(t) matches Some(p) ==> s.alive(p) && s.publications[p.key].has_track(t.key),
{
    assert(s.track_inv(t.key));
}

/// A new description changes neither the track of a publication nor whether it is muted, nor its
/// callbacks, nor how long it lives, nor anything else that is shared.
pub proof fn law_update_keeps_track_and_mute<H>(
    s: RegistryState<H>,
    p: PublicationRef,
    info: TrackInfoView,
)
    requires
        s.inv(),
        s.alive(p),
        info.publishable(),
    ensures
        ({
            let before = s.publications[p.key];
            let after = s.updated_info(p, info);
            &&& after.publications[p.key].info.track == before.info.track
            &&& after.publications[p.key].info.muted == before.info.muted
            &&& after.publications[p.key].events == before.events
            &&& after.publications[p.key].handles == before.handles
            &&& after.publications[p.key].info.proto_info == info
            &&& after.publications.remove(p.key) == s.publications.remove(p.key)
            &&& after.tracks == s.tracks
        }),
{
    let after = s.updated_info(p, info);
    assert(after.publications.remove(p.key) =~= s.publications.remove(p.key));
}

/// A publication that is described anew is known as one that was described so from the start,
/// but for whether it is muted.
pub proof fn law_update_equals_new(
    first: TrackInfoView,
    second: TrackInfoView,
    track: Option<TrackRef>,
)
    ensures
        PublicationInfoView::described(first, track).redescribed(second) == (PublicationInfoView {
            muted: first.muted,
            ..PublicationInfoView::described(second, track)
        }),
{
}

/// Of two descriptions the later one counts.
pub proof fn law_last_update_counts(
    known: PublicationInfoView,
    first: TrackInfoView,
    second: TrackInfoView,
)
    ensures
        known.redescribed(first).redescribed(second) == known.redescribed(second),
{
}

/// Every publication and every track has an identifier that is one of a track.
pub proof fn law_identifiers_are_valid<H>(s: RegistryState<H>, key: u64)
    requires
        s.inv(),
    ensures
        s.publications.contains_key(key) ==> id::valid_track_sid(s.publications[key].info.sid),
        s.tracks.contains_key(key) ==> id::valid_track_sid(s.tracks[key].sid),
{
    if s.publications.contains_key(key) {
        assert(s.publication_inv(key));
    }
    if s.tracks.contains_key(key) {
        assert(s.track_inv(key));
    }
}

/// What a current server says of simulcast is in the codecs alone, what an older server says is
/// in the deprecated fields alone; both are understood.
pub proof fn law_simulcast_of_current_and_older_servers(info: TrackInfoView)
    ensures
        !info.simulcast && info.layers.len() <= 1 ==> (info.simulcasted() <==> exists|i: int|
            0 <= i < info.codecs.len() && (#[trigger] info.codecs[i]).layers.len() > 1),
        info.codecs.len() == 0 ==> (info.simulcasted() <==> info.simulcast || info.layers.len()
            > 1),
{
}

/// Features are read one by one: those of two lists are those of the first and then those of the
/// second.
pub proof fn law_features_are_read_one_by_one(first: Seq<i32>, second: Seq<i32>)
    ensures
        proto::known_audio_features(first + second) == proto::known_audio_features(first)
            + proto::known_audio_features(second),
        proto::known_packet_trailer_features(first + second)
            == proto::known_packet_trailer_features(first) + proto::known_packet_trailer_features(
            second,
        ),
    decreases second.len(),
{
    if second.len() == 0 {
        assert(first + second =~= first);
    } else {
        law_features_are_read_one_by_one(first, second.drop_last());
        assert((first + second).drop_last() =~= first + second.drop_last());
        assert((first + second).last() == second.last());
    }
}

/// A number that stands for no feature adds nothing, and one that stands for a feature adds that
/// feature.
pub proof fn law_unknown_features_are_left_out(before: Seq<i32>, raw: i32)
    ensures
        proto::known_audio_features(before.push(raw)) == (match proto::known_audio_feature(raw) {
            Some(feature) => proto::known_audio_features(before).push(feature),
            None => proto::known_audio_features(before),
        }),
        proto::known_packet_trailer_features(before.push(raw)) == (
        match proto::known_packet_trailer_feature(raw) {
            Some(feature) => proto::known_packet_trailer_features(before).push(feature),
            None => proto::known_packet_trailer_features(before),
        }),
{
    assert(before.push(raw).drop_last() =~= before);
}

} // verus!
