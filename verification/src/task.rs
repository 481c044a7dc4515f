//! The task model: what a provisioning step is, and which of them are
//! selected.

use vstd::prelude::*;

verus! {

/// One provisioning step that the user can select.
#[derive(Debug)]
pub struct Task {
    /// Stable, unique identifier; it decides which commands the task runs.
    pub id: String,
    /// Name shown to the user.
    pub display_name: String,
    /// Whether the task takes part in the next run.
    pub enabled: bool,
    /// Whether the task needs the elevation credential.
    pub requires_privilege: bool,
}

/// A task as a plain value.
pub struct TaskView {
    pub id: Seq<char>,
    pub display_name: Seq<char>,
    pub enabled: bool,
    pub requires_privilege: bool,
}

impl View for Task {
    type V = TaskView;

    open spec fn view(&self) -> TaskView {
        TaskView {
            id: self.id@,
            display_name: self.display_name@,
            enabled: self.enabled,
            requires_privilege: self.requires_privilege,
        }
    }
}

impl Clone for Task {
    fn clone(&self) -> (out: Self)
        ensures
            out == *self,
    {
        Task {
            id: self.id.clone(),
            display_name: self.display_name.clone(),
            enabled: self.enabled,
            requires_privilege: self.requires_privilege,
        }
    }
}

impl TaskView {
    /// The same task with `enabled` flipped.
    pub open spec fn toggled(self) -> TaskView {
        TaskView { enabled: !self.enabled, ..self }
    }
}

/// The views of a list of tasks.
pub open spec fn task_views(tasks: Seq<Task>) -> Seq<TaskView> {
    tasks.map_values(|t: Task| t@)
}

/// The test that picks the enabled tasks.
pub open spec fn is_enabled() -> spec_fn(TaskView) -> bool {
    |t: TaskView| t.enabled
}

/// The enabled tasks of a list, in the order of the list.
pub open spec fn enabled_of(tasks: Seq<TaskView>) -> Seq<TaskView> {
    tasks.filter(is_enabled())
}

/// How many tasks of a list are enabled.
pub open spec fn enabled_count(tasks: Seq<TaskView>) -> nat {
    enabled_of(tasks).len()
}

/// Whether some task of the list needs the elevation credential.
pub open spec fn needs_privilege(tasks: Seq<TaskView>) -> bool {
    exists|i: int| 0 <= i < tasks.len() && #[trigger] tasks[i].requires_privilege
}

/// The list with the task at `index` toggled; unchanged where `index` is out
/// of range.
pub open spec fn toggled_at(tasks: Seq<TaskView>, index: int) -> Seq<TaskView> {
    if 0 <= index < tasks.len() {
        tasks.update(index, tasks[index].toggled())
    } else {
        tasks
    }
}

impl Task {
    /// A task with the given fields.
    pub fn new(id: &str, display_name: &str, enabled: bool, requires_privilege: bool) -> (out:
        Task)
        ensures
            out@ == (TaskView {
                id: id@,
                display_name: display_name@,
                enabled,
                requires_privilege,
            }),
    {
        Task {
            id: String::from_str(id),
            display_name: String::from_str(display_name),
            enabled,
            requires_privilege,
        }
    }
}

/// The tasks that the installer knows, as the user first sees them: all
/// enabled, in the order in which they run.
pub open spec fn default_task_views() -> Seq<TaskView> {
    seq![
        TaskView {
            id: "repos"@,
            display_name: "Add Repositories (RPM Fusion, Docker, Terra)"@,
            enabled: true,
            requires_privilege: true,
        },
        TaskView {
            id: "dnf"@,
            display_name: "Install System Packages"@,
            enabled: true,
            requires_privilege: true,
        },
        TaskView {
            id: "docker"@,
            display_name: "Install Docker"@,
            enabled: true,
            requires_privilege: true,
        },
        TaskView {
            id: "flatpak"@,
            display_name: "Install Flatpak Apps"@,
            enabled: true,
            requires_privilege: true,
        },
        TaskView {
            id: "homebrew"@,
            display_name: "Install Homebrew"@,
            enabled: true,
            requires_privilege: true,
        },
        TaskView {
            id: "opencode"@,
            display_name: "Install OpenCode"@,
            enabled: true,
            requires_privilege: true,
        },
        TaskView {
            id: "cargo"@,
            display_name: "Install Cargo Packages"@,
            enabled: true,
            requires_privilege: true,
        },
        TaskView {
            id: "terra"@,
            display_name: "Install Terra Extras"@,
            enabled: true,
            requires_privilege: true,
        },
        TaskView {
            id: "stow"@,
            display_name: "Stow Dotfiles"@,
            enabled: true,
            requires_privilege: false,
        },
    ]
}

/// The tasks that the installer knows, all enabled.
pub fn default_tasks() -> (out: Vec<Task>)
    ensures
        task_views(out@) == default_task_views(),
{
    let out = vec![
        Task::new("repos", "Add Repositories (RPM Fusion, Docker, Terra)", true, true),
        Task::new("dnf", "Install System Packages", true, true),
        Task::new("docker", "Install Docker", true, true),
        Task::new("flatpak", "Install Flatpak Apps", true, true),
        Task::new("homebrew", "Install Homebrew", true, true),
        Task::new("opencode", "Install OpenCode", true, true),
        Task::new("cargo", "Install Cargo Packages", true, true),
        Task::new("terra", "Install Terra Extras", true, true),
        Task::new("stow", "Stow Dotfiles", true, false),
    ];
    assert(task_views(out@) =~= default_task_views());
    out
}

/// The enabled tasks of `tasks`, in their order.
pub fn get_enabled(tasks: &Vec<Task>) -> (out: Vec<Task>)
    ensures
        task_views(out@) == enabled_of(task_views(tasks@)),
{
    let mut out: Vec<Task> = Vec::new();
    let mut i: usize = 0;
    assert(task_views(tasks@).take(0) =~= Seq::<TaskView>::empty());
    assert(task_views(out@) =~= Seq::<TaskView>::empty());
    while i < tasks.len()
        invariant
            i <= tasks.len(),
            task_views(out@) == enabled_of(task_views(tasks@).take(i as int)),
        decreases tasks.len() - i,
    {
        proof {
            let all = task_views(tasks@);
            assert(all.take(i + 1) =~= all.take(i as int).push(all[i as int]));
            all.take(i as int).lemma_filter_push(all[i as int], is_enabled());
        }
        if tasks[i].enabled {
            let copy = tasks[i].clone();
            assert(task_views(out@.push(copy)) =~= task_views(out@).push(copy@));
            out.push(copy);
        }
        i += 1;
    }
    assert(task_views(tasks@).take(tasks.len() as int) =~= task_views(tasks@));
    out
}

/// Flips `enabled` of the task at `index`. An index past the end changes
/// nothing.
pub fn toggle(tasks: &mut Vec<Task>, index: usize)
    ensures
        task_views(final(tasks)@) == toggled_at(task_views(old(tasks)@), index as int),
{
    if index < tasks.len() {
        let flipped = !tasks[index].enabled;
        tasks[index].enabled = flipped;
        assert(task_views(tasks@) =~= toggled_at(task_views(old(tasks)@), index as int));
    } else {
        assert(task_views(tasks@) =~= task_views(old(tasks)@));
    }
}

/// Whether some task of `tasks` needs the elevation credential.
pub fn any_requires_privilege(tasks: &Vec<Task>) -> (out: bool)
    ensures
        out == needs_privilege(task_views(tasks@)),
{
    let mut i: usize = 0;
    while i < tasks.len()
        invariant
            i <= tasks.len(),
            forall|j: int| 0 <= j < i ==> !(#[trigger] task_views(tasks@)[j]).requires_privilege,
        decreases tasks.len() - i,
    {
        if tasks[i].requires_privilege {
            assert(task_views(tasks@)[i as int].requires_privilege);
            return true;
        }
        i += 1;
    }
    false
}

/// Toggling a position twice gives the list back.
pub proof fn lemma_toggle_twice(tasks: Seq<TaskView>, index: int)
    ensures
        toggled_at(toggled_at(tasks, index), index) == tasks,
{
    assert(toggled_at(toggled_at(tasks, index), index) =~= tasks);
}

/// Toggling keeps the length of the list, every other task, and every field
/// of the toggled task but `enabled`.
pub proof fn lemma_toggle_touches_one(tasks: Seq<TaskView>, index: int)
    ensures
        toggled_at(tasks, index).len() == tasks.len(),
        forall|j: int|
            0 <= j < tasks.len() && j != index ==> toggled_at(tasks, index)[j] == tasks[j],
        0 <= index < tasks.len() ==> toggled_at(tasks, index)[index] == tasks[index].toggled(),
{
}

/// The enabled tasks are a sublist: each of them is enabled, and there are
/// no more of them than tasks.
pub proof fn lemma_enabled_sublist(tasks: Seq<TaskView>)
    ensures
        enabled_count(tasks) <= tasks.len(),
        forall|i: int| 0 <= i < enabled_of(tasks).len() ==> (#[trigger] enabled_of(tasks)[i]).enabled,
        forall|i: int|
            0 <= i < enabled_of(tasks).len() ==> tasks.contains(#[trigger] enabled_of(tasks)[i]),
{
    let pred = is_enabled();
    tasks.lemma_filter_len(pred);
    assert forall|i: int| 0 <= i < enabled_of(tasks).len() implies (#[trigger] enabled_of(
        tasks,
    )[i]).enabled && tasks.contains(enabled_of(tasks)[i]) by {
        tasks.lemma_filter_pred(pred, i);
        assert(enabled_of(tasks).contains(enabled_of(tasks)[i]));
        tasks.lemma_filter_contains_rev(pred, enabled_of(tasks)[i]);
    }
}

} // verus!
