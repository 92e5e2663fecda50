//! Whole upload exchanges: what the machine does over a sequence of events,
//! what that does to the files on disk, and the laws that hold of it.

use vstd::prelude::*;
use crate::response::{failure_reply, upload_reply};
use crate::upload::{
    no_file_notice, saved_path, transition, upload_directory, ActionView, EventView, StateView,
};

verus! {

/// One field of a multipart form: the file name it declares, if any, and
/// its content.
pub struct FormField {
    pub file_name: Option<Seq<char>>,
    pub data: Seq<u8>,
}

/// The files on disk: each path with the bytes stored under it.
pub type Disk = Map<Seq<char>, Seq<u8>>;

/// The machine run from `state` over `events`: the state it ends in and the
/// action it gave after each event, in order.
pub open spec fn run(state: StateView, events: Seq<EventView>) -> (StateView, Seq<ActionView>)
    decreases events.len(),
{
    if events.len() == 0 {
        (state, Seq::empty())
    } else {
        let (next, action) = transition(state, events[0]);
        let (last, later) = run(next, events.drop_first());
        (last, seq![action] + later)
    }
}

/// The events that a caller reports for `form` when nothing fails: one per
/// field up to the first that declares a file name, then that field's
/// content, the directory and the write; or, where no field declares one,
/// the end of the form.
pub open spec fn script(form: Seq<FormField>) -> Seq<EventView>
    decreases form.len(),
{
    if form.len() == 0 {
        seq![EventView::EndOfForm]
    } else {
        match form[0].file_name {
            Some(name) => seq![
                EventView::Field { file_name: Some(name) },
                EventView::Bytes { data: form[0].data },
                EventView::DirectoryReady,
                EventView::FileWritten,
            ],
            None => seq![EventView::Field { file_name: None }] + script(form.drop_first()),
        }
    }
}

/// Whether `event` reports the outcome of `action` without a fault.
pub open spec fn answers(action: ActionView, event: EventView) -> bool {
    match (action, event) {
        (ActionView::NextField, EventView::Field { .. }) => true,
        (ActionView::NextField, EventView::EndOfForm) => true,
        (ActionView::ReadBytes, EventView::Bytes { .. }) => true,
        (ActionView::CreateDirectory { .. }, EventView::DirectoryReady) => true,
        (ActionView::WriteFile { .. }, EventView::FileWritten) => true,
        _ => false,
    }
}

/// Whether `events` is what a caller reports that performs each action as
/// it is given and never fails: the first event answers `action`, and each
/// later one answers the action that the machine, run from `state`, gave
/// just before it.
pub open spec fn follows(action: ActionView, state: StateView, events: Seq<EventView>) -> bool
    decreases events.len(),
{
    if events.len() == 0 {
        true
    } else {
        &&& answers(action, events[0])
        &&& follows(
            transition(state, events[0]).1,
            transition(state, events[0]).0,
            events.drop_first(),
        )
    }
}

/// No field of `form` declares a file name.
pub open spec fn holds_no_file(form: Seq<FormField>) -> bool {
    forall|j: int| 0 <= j < form.len() ==> (#[trigger] form[j]).file_name is None
}

/// Field `i` of `form` declares a file name and none before it does.
pub open spec fn is_first_file(form: Seq<FormField>, i: int) -> bool {
    &&& 0 <= i < form.len()
    &&& form[i].file_name is Some
    &&& forall|j: int| 0 <= j < i ==> (#[trigger] form[j]).file_name is None
}

/// The actions of an exchange that found no file: one request for a field
/// per field seen, then the reply with the notice.
pub open spec fn actions_without_file(fields: nat) -> Seq<ActionView> {
    Seq::new(fields, |k: int| ActionView::NextField) + seq![
        ActionView::Respond(upload_reply(no_file_notice())),
    ]
}

/// The actions of an exchange that saved `data` under the name `file_name`
/// after passing over `skipped` fields without one.
pub open spec fn actions_saving(skipped: nat, file_name: Seq<char>, data: Seq<u8>) -> Seq<
    ActionView,
> {
    Seq::new(skipped, |k: int| ActionView::NextField) + seq![
        ActionView::ReadBytes,
        ActionView::CreateDirectory { path: upload_directory() },
        ActionView::WriteFile { path: saved_path(file_name), data },
        ActionView::Respond(upload_reply(saved_path(file_name))),
    ]
}

/// The disk after the caller performed `action`: a write stores the bytes
/// under the path and replaces what was there; no other action touches a
/// file.
pub open spec fn perform(disk: Disk, action: ActionView) -> Disk {
    match action {
        ActionView::WriteFile { path, data } => disk.insert(path, data),
        _ => disk,
    }
}

/// The disk after the caller performed `actions` in order.
pub open spec fn perform_all(disk: Disk, actions: Seq<ActionView>) -> Disk
    decreases actions.len(),
{
    if actions.len() == 0 {
        disk
    } else {
        perform_all(perform(disk, actions[0]), actions.drop_first())
    }
}

/// The disk after a faultless upload of `form`.
pub open spec fn disk_after_upload(disk: Disk, form: Seq<FormField>) -> Disk {
    perform_all(disk, run(StateView::Scanning, script(form)).1)
}

/// A run over one event and then `rest` is the transition on that event
/// followed by the run over `rest`.
pub proof fn lemma_run_unfolds(state: StateView, event: EventView, rest: Seq<EventView>)
    ensures
        run(state, seq![event] + rest) == (
            run(transition(state, event).0, rest).0,
            seq![transition(state, event).1] + run(transition(state, event).0, rest).1,
        ),
{
    let events = seq![event] + rest;
    assert(events[0] == event);
    assert(events.drop_first() =~= rest);
}

/// Performing one action and then `rest` is performing `rest` on the disk
/// that the one action left.
pub proof fn lemma_perform_unfolds(disk: Disk, action: ActionView, rest: Seq<ActionView>)
    ensures
        perform_all(disk, seq![action] + rest) == perform_all(perform(disk, action), rest),
{
    let actions = seq![action] + rest;
    assert(actions[0] == action);
    assert(actions.drop_first() =~= rest);
}

/// Requests for a field leave the disk as it is.
proof fn lemma_scanning_writes_nothing(disk: Disk, fields: nat, rest: Seq<ActionView>)
    ensures
        perform_all(disk, Seq::new(fields, |k: int| ActionView::NextField) + rest) == perform_all(
            disk,
            rest,
        ),
    decreases fields,
{
    let requests = Seq::new(fields, |k: int| ActionView::NextField);
    if fields == 0 {
        assert(requests + rest =~= rest);
    } else {
        let fewer = Seq::new((fields - 1) as nat, |k: int| ActionView::NextField);
        assert(requests + rest =~= seq![ActionView::NextField] + (fewer + rest));
        lemma_perform_unfolds(disk, ActionView::NextField, fewer + rest);
        lemma_scanning_writes_nothing(disk, (fields - 1) as nat, rest);
    }
}

/// The script of a form is a conversation with the machine: it starts by
/// answering the first request for a field, and every event in it answers
/// the action that the machine gave on the event before.
pub proof fn lemma_script_follows_the_actions(form: Seq<FormField>)
    ensures
        follows(ActionView::NextField, StateView::Scanning, script(form)),
    decreases form.len(),
{
    let events = script(form);
    if form.len() == 0 {
        let notice = ActionView::Respond(upload_reply(no_file_notice()));
        assert(events.drop_first().len() == 0);
        assert(follows(notice, StateView::Done, events.drop_first()));
    } else if form[0].file_name is Some {
        let name = form[0].file_name->0;
        let data = form[0].data;
        let path = saved_path(name);
        let e1 = events.drop_first();
        let e2 = e1.drop_first();
        let e3 = e2.drop_first();
        let e4 = e3.drop_first();
        assert(e4.len() == 0);
        assert(e3[0] == EventView::FileWritten);
        assert(e2[0] == EventView::DirectoryReady);
        assert(e1[0] == EventView::Bytes { data });
        let reply = ActionView::Respond(upload_reply(path));
        assert(follows(reply, StateView::Done, e4));
        assert(follows(
            ActionView::WriteFile { path, data },
            StateView::Writing { path },
            e3,
        ));
        assert(follows(
            ActionView::CreateDirectory { path: upload_directory() },
            StateView::Preparing { path, data },
            e2,
        ));
        assert(follows(ActionView::ReadBytes, StateView::Reading { file_name: name }, e1));
    } else {
        lemma_script_follows_the_actions(form.drop_first());
        assert(events.drop_first() =~= script(form.drop_first()));
    }
}

/// A form without a file field is answered with status 200 and the notice,
/// after one request per field, and the machine is done.
pub proof fn lemma_form_without_file(form: Seq<FormField>)
    requires
        holds_no_file(form),
    ensures
        run(StateView::Scanning, script(form)) == (
            StateView::Done,
            actions_without_file(form.len()),
        ),
    decreases form.len(),
{
    if form.len() == 0 {
        let end = seq![EventView::EndOfForm];
        assert(end =~= end + Seq::<EventView>::empty());
        lemma_run_unfolds(StateView::Scanning, EventView::EndOfForm, Seq::empty());
        assert(run(StateView::Done, Seq::<EventView>::empty()).1 =~= Seq::<ActionView>::empty());
        assert(run(StateView::Scanning, script(form)).1 =~= actions_without_file(0));
    } else {
        let rest = form.drop_first();
        assert(form[0].file_name is None);
        assert forall|j: int| 0 <= j < rest.len() implies (#[trigger] rest[j]).file_name is None by {
            assert(rest[j] == form[j + 1]);
        }
        lemma_form_without_file(rest);
        lemma_run_unfolds(
            StateView::Scanning,
            EventView::Field { file_name: None },
            script(rest),
        );
        assert(seq![ActionView::NextField] + actions_without_file(rest.len())
            =~= actions_without_file(form.len()));
    }
}

/// The first field that declares a file name is the one saved: the machine
/// passes over the fields before it, reads it, has the directory made and
/// the content written under the name's path, and answers with status 200
/// and that path. What follows the field in the form plays no part.
pub proof fn lemma_first_file_is_saved(form: Seq<FormField>, i: int)
    requires
        is_first_file(form, i),
    ensures
        run(StateView::Scanning, script(form)) == (
            StateView::Done,
            actions_saving(i as nat, form[i].file_name->0, form[i].data),
        ),
    decreases form.len(),
{
    if i == 0 {
        let name = form[0].file_name->0;
        let data = form[0].data;
        let found = EventView::Field { file_name: Some(name) };
        let bytes = EventView::Bytes { data };
        let e3 = seq![EventView::FileWritten];
        let e2 = seq![EventView::DirectoryReady] + e3;
        let e1 = seq![bytes] + e2;
        assert(script(form) =~= seq![found] + e1);
        let reading = StateView::Reading { file_name: name };
        let preparing = StateView::Preparing { path: saved_path(name), data };
        let writing = StateView::Writing { path: saved_path(name) };
        assert(e3 =~= seq![EventView::FileWritten] + Seq::<EventView>::empty());
        lemma_run_unfolds(writing, EventView::FileWritten, Seq::empty());
        lemma_run_unfolds(preparing, EventView::DirectoryReady, e3);
        lemma_run_unfolds(reading, bytes, e2);
        lemma_run_unfolds(StateView::Scanning, found, e1);
        assert(run(StateView::Done, Seq::<EventView>::empty()).1 =~= Seq::<ActionView>::empty());
        assert(run(StateView::Scanning, script(form)).1 =~= actions_saving(0, name, data));
    } else {
        let rest = form.drop_first();
        assert(form[0].file_name is None);
        assert(rest[i - 1] == form[i]);
        assert forall|j: int| 0 <= j < i - 1 implies (#[trigger] rest[j]).file_name is None by {
            assert(rest[j] == form[j + 1]);
        }
        lemma_first_file_is_saved(rest, i - 1);
        lemma_run_unfolds(
            StateView::Scanning,
            EventView::Field { file_name: None },
            script(rest),
        );
        assert(seq![ActionView::NextField] + actions_saving(
            (i - 1) as nat,
            form[i].file_name->0,
            form[i].data,
        ) =~= actions_saving(i as nat, form[i].file_name->0, form[i].data));
    }
}

/// An upload without a file field writes no file: the disk is as before.
pub proof fn lemma_no_file_no_write(disk: Disk, form: Seq<FormField>)
    requires
        holds_no_file(form),
    ensures
        disk_after_upload(disk, form) == disk,
{
    lemma_form_without_file(form);
    let reply = seq![ActionView::Respond(upload_reply(no_file_notice()))];
    lemma_scanning_writes_nothing(disk, form.len(), reply);
    assert(reply =~= reply + Seq::<ActionView>::empty());
    lemma_perform_unfolds(disk, reply[0], Seq::empty());
}

/// An upload changes the disk in one place: the path of the first file
/// field's name then holds that field's content, whatever it held before.
pub proof fn lemma_upload_stores_file(disk: Disk, form: Seq<FormField>, i: int)
    requires
        is_first_file(form, i),
    ensures
        disk_after_upload(disk, form) == disk.insert(
            saved_path(form[i].file_name->0),
            form[i].data,
        ),
{
    lemma_first_file_is_saved(form, i);
    let path = saved_path(form[i].file_name->0);
    let data = form[i].data;
    let a4 = ActionView::Respond(upload_reply(path));
    let a3 = ActionView::WriteFile { path, data };
    let a2 = ActionView::CreateDirectory { path: upload_directory() };
    let t4 = seq![a4];
    let t3 = seq![a3] + t4;
    let t2 = seq![a2] + t3;
    let t1 = seq![ActionView::ReadBytes] + t2;
    assert(t1 =~= seq![ActionView::ReadBytes, a2, a3, a4]);
    lemma_scanning_writes_nothing(disk, i as nat, t1);
    lemma_perform_unfolds(disk, ActionView::ReadBytes, t2);
    lemma_perform_unfolds(disk, a2, t3);
    lemma_perform_unfolds(disk, a3, t4);
    assert(t4 =~= seq![a4] + Seq::<ActionView>::empty());
    lemma_perform_unfolds(disk.insert(path, data), a4, Seq::empty());
}

/// Two uploads under one file name: the second overwrites the first. The
/// file then holds the second content, and the disk is the one that the
/// second upload alone would have left. So repeating an upload under the
/// same name is not idempotent: where the contents differ, the second
/// changes what the first left.
pub proof fn lemma_second_upload_overwrites(
    disk: Disk,
    first: Seq<FormField>,
    i: int,
    second: Seq<FormField>,
    j: int,
)
    requires
        is_first_file(first, i),
        is_first_file(second, j),
        first[i].file_name == second[j].file_name,
    ensures
        disk_after_upload(disk_after_upload(disk, first), second)[saved_path(
            second[j].file_name->0,
        )] == second[j].data,
        disk_after_upload(disk_after_upload(disk, first), second) == disk_after_upload(
            disk,
            second,
        ),
        first[i].data != second[j].data ==> disk_after_upload(
            disk_after_upload(disk, first),
            second,
        ) != disk_after_upload(disk, first),
{
    lemma_upload_stores_file(disk, first, i);
    lemma_upload_stores_file(disk_after_upload(disk, first), second, j);
    lemma_upload_stores_file(disk, second, j);
    let path = saved_path(second[j].file_name->0);
    assert(disk.insert(path, first[i].data).insert(path, second[j].data) =~= disk.insert(
        path,
        second[j].data,
    ));
    assert(disk.insert(path, first[i].data)[path] == first[i].data);
    assert(disk.insert(path, second[j].data)[path] == second[j].data);
}

/// A fault in any state but the last ends the exchange with the failure
/// reply: status 500 and the generic error record.
pub proof fn lemma_fault_ends_exchange(state: StateView)
    requires
        state != StateView::Done,
    ensures
        transition(state, EventView::Fault) == (
            StateView::Done,
            ActionView::Respond(failure_reply()),
        ),
{
}

/// Once the reply is given the machine stays done and asks for nothing,
/// whatever it is told.
pub proof fn lemma_done_is_final(events: Seq<EventView>)
    ensures
        run(StateView::Done, events).0 == StateView::Done,
        run(StateView::Done, events).1 == Seq::new(events.len(), |k: int| ActionView::Nothing),
    decreases events.len(),
{
    if events.len() == 0 {
        assert(run(StateView::Done, events).1 =~= Seq::new(0, |k: int| ActionView::Nothing));
    } else {
        lemma_done_is_final(events.drop_first());
        assert(run(StateView::Done, events).1 =~= Seq::new(
            events.len(),
            |k: int| ActionView::Nothing,
        ));
    }
}

/// How many of `actions` satisfy `wanted`.
pub open spec fn count(actions: Seq<ActionView>, wanted: spec_fn(ActionView) -> bool) -> nat
    decreases actions.len(),
{
    if actions.len() == 0 {
        0
    } else {
        let here: nat = if wanted(actions[0]) {
            1
        } else {
            0
        };
        here + count(actions.drop_first(), wanted)
    }
}

/// Whether `action` writes a file.
pub open spec fn is_write(action: ActionView) -> bool {
    action is WriteFile
}

/// Whether `action` sends the reply.
pub open spec fn is_reply(action: ActionView) -> bool {
    action is Respond
}

/// How many writes the machine can still ask for from `state`.
pub open spec fn writes_left(state: StateView) -> nat {
    match state {
        StateView::Scanning => 1,
        StateView::Reading { .. } => 1,
        StateView::Preparing { .. } => 1,
        _ => 0,
    }
}

/// How many replies the machine can still give from `state`.
pub open spec fn replies_left(state: StateView) -> nat {
    match state {
        StateView::Done => 0,
        _ => 1,
    }
}

/// From any state and whatever the caller reports, the machine asks for no
/// more writes and gives no more replies than the state leaves open.
pub proof fn lemma_run_is_bounded(state: StateView, events: Seq<EventView>)
    ensures
        count(run(state, events).1, |a: ActionView| is_write(a)) <= writes_left(state),
        count(run(state, events).1, |a: ActionView| is_reply(a)) <= replies_left(state),
    decreases events.len(),
{
    let writes = |a: ActionView| is_write(a);
    let replies = |a: ActionView| is_reply(a);
    if events.len() > 0 {
        let (next, action) = transition(state, events[0]);
        let later = run(next, events.drop_first()).1;
        let actions = seq![action] + later;
        lemma_run_is_bounded(next, events.drop_first());
        assert(actions[0] == action);
        assert(actions.drop_first() =~= later);
        assert(run(state, events).1 == actions);
        assert(count(actions, writes) == (if is_write(action) {
            1nat
        } else {
            0nat
        }) + count(later, writes));
        assert(count(actions, replies) == (if is_reply(action) {
            1nat
        } else {
            0nat
        }) + count(later, replies));
    }
}

/// Whatever the caller reports, in whatever order, one exchange asks for at
/// most one write and gives at most one reply.
pub proof fn lemma_one_write_one_reply(events: Seq<EventView>)
    ensures
        count(run(StateView::Scanning, events).1, |a: ActionView| is_write(a)) <= 1,
        count(run(StateView::Scanning, events).1, |a: ActionView| is_reply(a)) <= 1,
{
    lemma_run_is_bounded(StateView::Scanning, events);
}

} // verus!
