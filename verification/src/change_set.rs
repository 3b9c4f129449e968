//! Which regions of the window have changed, and what is refreshed for them.
use crate::text::join2;
use vstd::prelude::*;

verus! {

#[derive(Debug, Clone, Copy, PartialEq, Eq, Structural)]
pub enum UiRegion {
    Root,
    Sessions,
    Composer,
    Conversation,
    ConversationHeader,
    Inspector,
    InspectorTelemetry,
    Skills,
    Toast,
    Modal,
    Drawer,
}

/// A set of regions.
#[derive(Debug, Clone, Copy, PartialEq, Eq, Structural)]
pub struct UiChangeSet {
    root: bool,
    sessions: bool,
    composer: bool,
    conversation: bool,
    conversation_header: bool,
    inspector: bool,
    inspector_telemetry: bool,
    skills: bool,
    toast: bool,
    modal: bool,
    drawer: bool,
}

impl Default for UiChangeSet {
    fn default() -> (changes: Self)
        ensures
            forall|region: UiRegion| !#[trigger] changes.holds(region),
    {
        UiChangeSet {
            root: false,
            sessions: false,
            composer: false,
            conversation: false,
            conversation_header: false,
            inspector: false,
            inspector_telemetry: false,
            skills: false,
            toast: false,
            modal: false,
            drawer: false,
        }
    }
}

impl UiChangeSet {
    /// Whether a region is in the set.
    pub closed spec fn holds(self, region: UiRegion) -> bool {
        match region {
            UiRegion::Root => self.root,
            UiRegion::Sessions => self.sessions,
            UiRegion::Composer => self.composer,
            UiRegion::Conversation => self.conversation,
            UiRegion::ConversationHeader => self.conversation_header,
            UiRegion::Inspector => self.inspector,
            UiRegion::InspectorTelemetry => self.inspector_telemetry,
            UiRegion::Skills => self.skills,
            UiRegion::Toast => self.toast,
            UiRegion::Modal => self.modal,
            UiRegion::Drawer => self.drawer,
        }
    }

    pub fn contains(&self, region: UiRegion) -> (found: bool)
        ensures
            found == self.holds(region),
    {
        match region {
            UiRegion::Root => self.root,
            UiRegion::Sessions => self.sessions,
            UiRegion::Composer => self.composer,
            UiRegion::Conversation => self.conversation,
            UiRegion::ConversationHeader => self.conversation_header,
            UiRegion::Inspector => self.inspector,
            UiRegion::InspectorTelemetry => self.inspector_telemetry,
            UiRegion::Skills => self.skills,
            UiRegion::Toast => self.toast,
            UiRegion::Modal => self.modal,
            UiRegion::Drawer => self.drawer,
        }
    }

    pub fn insert(&mut self, region: UiRegion)
        ensures
            forall|other: UiRegion|
                #[trigger] final(self).holds(other) == (old(self).holds(other) || other == region),
    {
        match region {
            UiRegion::Root => self.root = true,
            UiRegion::Sessions => self.sessions = true,
            UiRegion::Composer => self.composer = true,
            UiRegion::Conversation => self.conversation = true,
            UiRegion::ConversationHeader => self.conversation_header = true,
            UiRegion::Inspector => self.inspector = true,
            UiRegion::InspectorTelemetry => self.inspector_telemetry = true,
            UiRegion::Skills => self.skills = true,
            UiRegion::Toast => self.toast = true,
            UiRegion::Modal => self.modal = true,
            UiRegion::Drawer => self.drawer = true,
        }
    }

    pub fn one(region: UiRegion) -> (changes: Self)
        ensures
            forall|other: UiRegion| #[trigger] changes.holds(other) == (other == region),
    {
        let mut changes = UiChangeSet::default();
        changes.insert(region);
        changes
    }

    pub fn from_regions(regions: &Vec<UiRegion>) -> (changes: Self)
        ensures
            forall|other: UiRegion| #[trigger] changes.holds(other) == regions@.contains(other),
    {
        let mut changes = UiChangeSet::default();
        let mut index: usize = 0;
        while index < regions.len()
            invariant
                index <= regions@.len(),
                forall|other: UiRegion| #[trigger]
                    changes.holds(other) == regions@.take(index as int).contains(other),
            decreases regions@.len() - index,
        {
            let ghost before = regions@.take(index as int);
            changes.insert(regions[index]);
            index = index + 1;
            proof {
                let after = regions@.take(index as int);
                assert(after =~= before.push(regions@[index - 1]));
                assert forall|other: UiRegion| #[trigger] changes.holds(other) == after.contains(
                    other,
                ) by {
                    if before.contains(other) {
                        let at = before.index_of(other);
                        assert(after[at] == other);
                    }
                    if other == regions@[index - 1] {
                        assert(after[index - 1] == other);
                    }
                }
            }
        }
        assert(regions@.take(index as int) =~= regions@);
        changes
    }

    pub fn is_empty(&self) -> (empty: bool)
        ensures
            empty == (forall|region: UiRegion| !#[trigger] self.holds(region)),
    {
        let empty = !(self.root || self.sessions || self.composer || self.conversation
            || self.conversation_header || self.inspector || self.inspector_telemetry
            || self.skills || self.toast || self.modal || self.drawer);
        proof {
            if !empty {
                assert(self.holds(UiRegion::Root) || self.holds(UiRegion::Sessions) || self.holds(
                    UiRegion::Composer,
                ) || self.holds(UiRegion::Conversation) || self.holds(
                    UiRegion::ConversationHeader,
                ) || self.holds(UiRegion::Inspector) || self.holds(UiRegion::InspectorTelemetry)
                    || self.holds(UiRegion::Skills) || self.holds(UiRegion::Toast) || self.holds(
                    UiRegion::Modal,
                ) || self.holds(UiRegion::Drawer));
            }
        }
        empty
    }

    pub fn merge(&mut self, other: &UiChangeSet)
        ensures
            forall|region: UiRegion| #[trigger]
                final(self).holds(region) == (old(self).holds(region) || other.holds(region)),
    {
        *self = UiChangeSet {
            root: self.root || other.root,
            sessions: self.sessions || other.sessions,
            composer: self.composer || other.composer,
            conversation: self.conversation || other.conversation,
            conversation_header: self.conversation_header || other.conversation_header,
            inspector: self.inspector || other.inspector,
            inspector_telemetry: self.inspector_telemetry || other.inspector_telemetry,
            skills: self.skills || other.skills,
            toast: self.toast || other.toast,
            modal: self.modal || other.modal,
            drawer: self.drawer || other.drawer,
        };
    }
}

/// One part of a refresh.
#[derive(Debug, Clone, Copy, PartialEq, Eq, Structural)]
pub enum RefreshStep {
    NotifyRoot,
    Sessions,
    Composer,
    Conversation,
    Inspector,
    ScheduleTelemetry,
    Skills,
    Toast,
    ConversationHeader,
    Modal,
    Drawer,
}

/// Whether a set of changes calls for a step. The sessions bring their notices
/// and the admission of modals along, the inspector its notices; telemetry alone
/// is left to the schedule.
pub open spec fn calls_for(changes: UiChangeSet, step: RefreshStep) -> bool {
    match step {
        RefreshStep::NotifyRoot => changes.holds(UiRegion::Root),
        RefreshStep::Sessions => changes.holds(UiRegion::Sessions),
        RefreshStep::Composer => changes.holds(UiRegion::Composer),
        RefreshStep::Conversation => changes.holds(UiRegion::Conversation),
        RefreshStep::Inspector => changes.holds(UiRegion::Inspector),
        RefreshStep::ScheduleTelemetry => changes.holds(UiRegion::InspectorTelemetry)
            && !changes.holds(UiRegion::Inspector),
        RefreshStep::Skills => changes.holds(UiRegion::Skills),
        RefreshStep::Toast => changes.holds(UiRegion::Toast) || changes.holds(UiRegion::Sessions)
            || changes.holds(UiRegion::Inspector),
        RefreshStep::ConversationHeader => changes.holds(UiRegion::ConversationHeader),
        RefreshStep::Modal => changes.holds(UiRegion::Modal) || changes.holds(UiRegion::Sessions),
        RefreshStep::Drawer => changes.holds(UiRegion::Drawer),
    }
}

/// All steps, in the order in which they are taken.
pub open spec fn step_order() -> Seq<RefreshStep> {
    seq![
        RefreshStep::NotifyRoot,
        RefreshStep::Sessions,
        RefreshStep::Composer,
        RefreshStep::Conversation,
        RefreshStep::Inspector,
        RefreshStep::ScheduleTelemetry,
        RefreshStep::Skills,
        RefreshStep::Toast,
        RefreshStep::ConversationHeader,
        RefreshStep::Modal,
        RefreshStep::Drawer,
    ]
}

/// The steps among the given ones that a set of changes calls for.
pub open spec fn called_steps(changes: UiChangeSet, among: Seq<RefreshStep>) -> Seq<RefreshStep>
    decreases among.len(),
{
    if among.len() == 0 {
        Seq::empty()
    } else {
        let before = called_steps(changes, among.drop_last());
        if calls_for(changes, among.last()) {
            before.push(among.last())
        } else {
            before
        }
    }
}

fn step_is_called(changes: &UiChangeSet, step: RefreshStep) -> (called: bool)
    ensures
        called == calls_for(*changes, step),
{
    match step {
        RefreshStep::NotifyRoot => changes.contains(UiRegion::Root),
        RefreshStep::Sessions => changes.contains(UiRegion::Sessions),
        RefreshStep::Composer => changes.contains(UiRegion::Composer),
        RefreshStep::Conversation => changes.contains(UiRegion::Conversation),
        RefreshStep::Inspector => changes.contains(UiRegion::Inspector),
        RefreshStep::ScheduleTelemetry => changes.contains(UiRegion::InspectorTelemetry)
            && !changes.contains(UiRegion::Inspector),
        RefreshStep::Skills => changes.contains(UiRegion::Skills),
        RefreshStep::Toast => changes.contains(UiRegion::Toast) || changes.contains(
            UiRegion::Sessions,
        ) || changes.contains(UiRegion::Inspector),
        RefreshStep::ConversationHeader => changes.contains(UiRegion::ConversationHeader),
        RefreshStep::Modal => changes.contains(UiRegion::Modal) || changes.contains(
            UiRegion::Sessions,
        ),
        RefreshStep::Drawer => changes.contains(UiRegion::Drawer),
    }
}

/// Works out what is refreshed, and in which order.
pub fn refresh_views(changes: &UiChangeSet) -> (steps: Vec<RefreshStep>)
    ensures
        steps@ == called_steps(*changes, step_order()),
{
    let order: Vec<RefreshStep> = vec![
        RefreshStep::NotifyRoot,
        RefreshStep::Sessions,
        RefreshStep::Composer,
        RefreshStep::Conversation,
        RefreshStep::Inspector,
        RefreshStep::ScheduleTelemetry,
        RefreshStep::Skills,
        RefreshStep::Toast,
        RefreshStep::ConversationHeader,
        RefreshStep::Modal,
        RefreshStep::Drawer,
    ];
    assert(order@ =~= step_order());
    let mut steps: Vec<RefreshStep> = Vec::new();
    let mut index: usize = 0;
    while index < order.len()
        invariant
            index <= order@.len(),
            steps@ == called_steps(*changes, order@.take(index as int)),
        decreases order@.len() - index,
    {
        let ghost longer = order@.take(index as int + 1);
        assert(longer.drop_last() =~= order@.take(index as int));
        if step_is_called(changes, order[index]) {
            steps.push(order[index]);
        }
        index = index + 1;
    }
    assert(order@.take(index as int) =~= order@);
    steps
}

proof fn lemma_called_steps_hold(changes: UiChangeSet, among: Seq<RefreshStep>, step: RefreshStep)
    ensures
        called_steps(changes, among).contains(step) <==> among.contains(step) && calls_for(
            changes,
            step,
        ),
    decreases among.len(),
{
    if among.len() > 0 {
        let shorter = among.drop_last();
        let before = called_steps(changes, shorter);
        let now = called_steps(changes, among);
        lemma_called_steps_hold(changes, shorter, step);
        if before.contains(step) {
            let at = before.index_of(step);
            assert(now[at] == step);
        }
        if shorter.contains(step) {
            let at = shorter.index_of(step);
            assert(among[at] == step);
        }
        if now.contains(step) {
            let at = now.index_of(step);
            if at < before.len() {
                assert(before[at] == step);
            } else {
                assert(among.last() == step);
            }
        }
        if among.contains(step) && calls_for(changes, step) {
            let at = among.index_of(step);
            if at == among.len() - 1 {
                assert(now.last() == step);
            } else {
                assert(shorter[at] == step);
            }
        }
    }
}

proof fn lemma_every_step_is_ordered(step: RefreshStep)
    ensures
        step_order().contains(step),
{
    let order = step_order();
    assert(order[0] is NotifyRoot && order[1] is Sessions && order[2] is Composer
        && order[3] is Conversation && order[4] is Inspector && order[5] is ScheduleTelemetry
        && order[6] is Skills && order[7] is Toast && order[8] is ConversationHeader
        && order[9] is Modal && order[10] is Drawer);
}

/// A refresh takes exactly the steps that its changes call for.
pub proof fn law_refresh_takes_what_is_called_for(changes: UiChangeSet, step: RefreshStep)
    ensures
        called_steps(changes, step_order()).contains(step) <==> calls_for(changes, step),
{
    lemma_called_steps_hold(changes, step_order(), step);
    lemma_every_step_is_ordered(step);
}

/// Who changes the sessions or the inspector need not name the hosts of their
/// notices and modals: these are refreshed along with them.
pub proof fn law_hosts_are_coordinated(changes: UiChangeSet)
    ensures
        changes.holds(UiRegion::Sessions) ==> called_steps(changes, step_order()).contains(
            RefreshStep::Toast,
        ) && called_steps(changes, step_order()).contains(RefreshStep::Modal),
        changes.holds(UiRegion::Inspector) ==> called_steps(changes, step_order()).contains(
            RefreshStep::Toast,
        ),
{
    law_refresh_takes_what_is_called_for(changes, RefreshStep::Toast);
    law_refresh_takes_what_is_called_for(changes, RefreshStep::Modal);
}

/// A refresh of the inspector never leaves its telemetry to the schedule too.
pub proof fn law_inspector_refresh_covers_telemetry(changes: UiChangeSet)
    ensures
        !(called_steps(changes, step_order()).contains(RefreshStep::Inspector) && called_steps(
            changes,
            step_order(),
        ).contains(RefreshStep::ScheduleTelemetry)),
{
    law_refresh_takes_what_is_called_for(changes, RefreshStep::Inspector);
    law_refresh_takes_what_is_called_for(changes, RefreshStep::ScheduleTelemetry);
}

/// What a new window refreshes.
pub fn initial_changes() -> (changes: UiChangeSet)
    ensures
        forall|region: UiRegion| #[trigger]
            changes.holds(region) == !(region is Root || region is InspectorTelemetry),
{
    let regions: Vec<UiRegion> = vec![
        UiRegion::Conversation,
        UiRegion::ConversationHeader,
        UiRegion::Composer,
        UiRegion::Sessions,
        UiRegion::Inspector,
        UiRegion::Skills,
        UiRegion::Modal,
        UiRegion::Drawer,
        UiRegion::Toast,
    ];
    let changes = UiChangeSet::from_regions(&regions);
    proof {
        let listed = regions@;
        assert forall|region: UiRegion| #[trigger] changes.holds(region) == !(region is Root
            || region is InspectorTelemetry) by {
            assert(listed[0] is Conversation && listed[1] is ConversationHeader
                && listed[2] is Composer && listed[3] is Sessions && listed[4] is Inspector
                && listed[5] is Skills && listed[6] is Modal && listed[7] is Drawer
                && listed[8] is Toast);
        }
    }
    changes
}

/// The owner of a workspace.
#[derive(Debug, PartialEq, Eq)]
pub enum WorkspaceKey {
    Home,
    Session(String),
}

/// The name under which the notices of a workspace are observed.
pub open spec fn owner_words(key: WorkspaceKey) -> Seq<char> {
    match key {
        WorkspaceKey::Home => "workspace:home"@,
        WorkspaceKey::Session(session_id) => "session:"@ + session_id@,
    }
}

pub fn notice_owner(key: &WorkspaceKey) -> (owner: String)
    ensures
        owner@ == owner_words(*key),
{
    match key {
        WorkspaceKey::Home => "workspace:home".to_owned(),
        WorkspaceKey::Session(session_id) => join2("session:", session_id.as_str()),
    }
}

/// A notice that the toast host observes.
#[derive(Debug, PartialEq, Eq)]
pub struct ToastNotice {
    pub session_id: String,
    pub revision: u64,
    pub message: String,
}

/// Works out the notice of a workspace, if it has one.
pub fn toast_notice(key: &WorkspaceKey, message: &Option<String>, revision: u64) -> (notice: Option<
    ToastNotice,
>)
    ensures
        notice is Some <==> message is Some,
        notice is Some ==> notice->0.session_id@ == owner_words(*key) && notice->0.revision
            == revision && notice->0.message@ == message->0@,
{
    match message {
        Some(message) => Some(
            ToastNotice { session_id: notice_owner(key), revision, message: message.clone() },
        ),
        None => None,
    }
}

/// Two workspaces never share an owner name.
pub proof fn law_owners_are_distinct(left: WorkspaceKey, right: WorkspaceKey)
    requires
        owner_words(left) == owner_words(right),
    ensures
        (left is Home) == (right is Home),
        left is Session ==> left->Session_0@ == right->Session_0@,
{
    reveal_strlit("workspace:home");
    reveal_strlit("session:");
    match (left, right) {
        (WorkspaceKey::Session(a), WorkspaceKey::Session(b)) => {
            assert(a@ =~= owner_words(left).skip(8));
            assert(b@ =~= owner_words(right).skip(8));
        },
        (WorkspaceKey::Home, WorkspaceKey::Session(_)) => {
            assert(owner_words(left)[0] == 'w');
            assert(owner_words(right)[0] == 's');
        },
        (WorkspaceKey::Session(_), WorkspaceKey::Home) => {
            assert(owner_words(left)[0] == 's');
            assert(owner_words(right)[0] == 'w');
        },
        (WorkspaceKey::Home, WorkspaceKey::Home) => {},
    }
}

/// Every region refreshes what is its own. Sessions bring the toast and the modals
/// along, the inspector the toast, and telemetry is left to the schedule unless the
/// inspector is painted anyway; nothing else brings anything along.
pub proof fn law_regions_refresh_their_own(changes: UiChangeSet)
    ensures
        calls_for(changes, RefreshStep::NotifyRoot) <==> changes.holds(UiRegion::Root),
        calls_for(changes, RefreshStep::Sessions) <==> changes.holds(UiRegion::Sessions),
        calls_for(changes, RefreshStep::Composer) <==> changes.holds(UiRegion::Composer),
        calls_for(changes, RefreshStep::Conversation) <==> changes.holds(UiRegion::Conversation),
        calls_for(changes, RefreshStep::ConversationHeader) <==> changes.holds(
            UiRegion::ConversationHeader,
        ),
        calls_for(changes, RefreshStep::Inspector) <==> changes.holds(UiRegion::Inspector),
        calls_for(changes, RefreshStep::Skills) <==> changes.holds(UiRegion::Skills),
        calls_for(changes, RefreshStep::Drawer) <==> changes.holds(UiRegion::Drawer),
        calls_for(changes, RefreshStep::Toast) <==> changes.holds(UiRegion::Toast) || changes.holds(
            UiRegion::Sessions,
        ) || changes.holds(UiRegion::Inspector),
        calls_for(changes, RefreshStep::Modal) <==> changes.holds(UiRegion::Modal) || changes.holds(
            UiRegion::Sessions,
        ),
        calls_for(changes, RefreshStep::ScheduleTelemetry) <==> changes.holds(
            UiRegion::InspectorTelemetry,
        ) && !changes.holds(UiRegion::Inspector),
{
}

/// The place of a step in the order of a refresh.
pub open spec fn turn(step: RefreshStep) -> int {
    match step {
        RefreshStep::NotifyRoot => 0,
        RefreshStep::Sessions => 1,
        RefreshStep::Composer => 2,
        RefreshStep::Conversation => 3,
        RefreshStep::Inspector => 4,
        RefreshStep::ScheduleTelemetry => 5,
        RefreshStep::Skills => 6,
        RefreshStep::Toast => 7,
        RefreshStep::ConversationHeader => 8,
        RefreshStep::Modal => 9,
        RefreshStep::Drawer => 10,
    }
}

proof fn lemma_called_in_turn(changes: UiChangeSet, among: Seq<RefreshStep>, bound: int)
    requires
        forall|i: int, j: int|
            0 <= i < j < among.len() ==> turn(#[trigger] among[i]) < turn(#[trigger] among[j]),
        forall|i: int| 0 <= i < among.len() ==> turn(#[trigger] among[i]) < bound,
    ensures
        ({
            let called = called_steps(changes, among);
            &&& forall|i: int, j: int|
                0 <= i < j < called.len() ==> turn(#[trigger] called[i]) < turn(
                    #[trigger] called[j],
                )
            &&& forall|i: int| 0 <= i < called.len() ==> turn(#[trigger] called[i]) < bound
        }),
    decreases among.len(),
{
    if among.len() > 0 {
        let fewer = among.drop_last();
        let last = among.last();
        assert forall|i: int| 0 <= i < fewer.len() implies turn(#[trigger] fewer[i]) < turn(last) by {
            assert(fewer[i] == among[i]);
            assert(turn(among[i]) < turn(among[among.len() - 1]));
        }
        lemma_called_in_turn(changes, fewer, turn(last));
        let before = called_steps(changes, fewer);
        let called = called_steps(changes, among);
        assert(turn(among[among.len() - 1]) < bound);
        assert forall|i: int, j: int| 0 <= i < j < called.len() implies turn(#[trigger] called[i])
            < turn(#[trigger] called[j]) by {
            assert(called[i] == before[i]);
            if j < before.len() {
                assert(called[j] == before[j]);
            }
        }
        assert forall|i: int| 0 <= i < called.len() implies turn(#[trigger] called[i]) < bound by {
            if i < before.len() {
                assert(called[i] == before[i]);
            }
        }
    }
}

/// A refresh goes through its steps in one order, whatever has changed, and takes none
/// twice: the root first, the panes, then what depends on them, and the drawer last.
pub proof fn law_refresh_goes_in_one_order(changes: UiChangeSet)
    ensures
        ({
            let called = called_steps(changes, step_order());
            forall|i: int, j: int|
                0 <= i < j < called.len() ==> turn(#[trigger] called[i]) < turn(
                    #[trigger] called[j],
                )
        }),
{
    lemma_called_in_turn(changes, step_order(), 11);
}

/// A notice belongs to its workspace: home, or the session of that name.
pub proof fn law_owners_are_worded_by_their_workspace(session_id: String)
    ensures
        owner_words(WorkspaceKey::Home) == "workspace:home"@,
        owner_words(WorkspaceKey::Session(session_id)) == "session:"@ + session_id@,
{
}

} // verus!
