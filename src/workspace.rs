//! The project registry behind the protected routes: projects, each with a
//! list of tasks, held in memory. The server keeps one registry behind a
//! lock; the operations here are the ones its handlers perform.

use vstd::prelude::*;

verus! {

/// Text of the error for an unknown project or task.
pub const NOT_FOUND_MESSAGE: &'static str = "Project or Task not found.";

/// Text of the error for a registry lock that could not be taken.
pub const LOCK_FAILURE_MESSAGE: &'static str = "Failed to acquire mutex lock";

/// An error of a registry operation, with the text shown to the client.
#[derive(Debug)]
pub enum WorkspaceError {
    NotFound(String),
    MutexLockFailure(String),
}

impl WorkspaceError {
    /// The error for an unknown project or task.
    pub fn not_found() -> (e: WorkspaceError)
        ensures
            e matches WorkspaceError::NotFound(m) && m@ == NOT_FOUND_MESSAGE@,
    {
        WorkspaceError::NotFound(NOT_FOUND_MESSAGE.to_owned())
    }

    /// The error for a registry lock that could not be taken.
    pub fn lock_failure() -> (e: WorkspaceError)
        ensures
            e matches WorkspaceError::MutexLockFailure(m) && m@ == LOCK_FAILURE_MESSAGE@,
    {
        WorkspaceError::MutexLockFailure(LOCK_FAILURE_MESSAGE.to_owned())
    }

    /// The error's text.
    pub fn message(&self) -> (r: String)
        ensures
            match self {
                WorkspaceError::NotFound(m) => r@ == m@,
                WorkspaceError::MutexLockFailure(m) => r@ == m@,
            },
    {
        match self {
            WorkspaceError::NotFound(m) => m.clone(),
            WorkspaceError::MutexLockFailure(m) => m.clone(),
        }
    }

    /// The HTTP status that answers the error: 404 for an unknown project or
    /// task, 500 for a lock failure.
    pub fn status_code(&self) -> (r: u16)
        ensures
            self is NotFound ==> r == 404,
            self is MutexLockFailure ==> r == 500,
    {
        match self {
            WorkspaceError::NotFound(_) => 404,
            WorkspaceError::MutexLockFailure(_) => 500,
        }
    }
}

/// The view of an optional string.
pub open spec fn opt_str_view(s: Option<String>) -> Option<Seq<char>> {
    match s {
        Some(v) => Some(v@),
        None => None,
    }
}

/// A task of a project.
#[derive(Debug)]
pub struct TaskDetail {
    pub id: usize,
    pub title: String,
    pub assignee: Option<String>,
    pub current_status: String,
}

/// The value of a [`TaskDetail`].
pub struct TaskView {
    pub id: usize,
    pub title: Seq<char>,
    pub assignee: Option<Seq<char>>,
    pub current_status: Seq<char>,
}

impl View for TaskDetail {
    type V = TaskView;

    open spec fn view(&self) -> TaskView {
        TaskView {
            id: self.id,
            title: self.title@,
            assignee: opt_str_view(self.assignee),
            current_status: self.current_status@,
        }
    }
}

impl TaskDetail {
    /// A copy of the task.
    pub fn duplicate(&self) -> (r: TaskDetail)
        ensures
            r@ == self@,
    {
        let assignee = match &self.assignee {
            Some(a) => Some(a.clone()),
            None => None,
        };
        TaskDetail {
            id: self.id,
            title: self.title.clone(),
            assignee,
            current_status: self.current_status.clone(),
        }
    }
}

/// A project and its tasks.
#[derive(Debug)]
pub struct ProjectDetail {
    pub id: usize,
    pub name: String,
    pub task_list: Vec<TaskDetail>,
}

/// The value of a [`ProjectDetail`].
pub struct ProjectView {
    pub id: usize,
    pub name: Seq<char>,
    pub tasks: Seq<TaskView>,
}

/// The values of a list of tasks.
pub open spec fn tasks_view(ts: Seq<TaskDetail>) -> Seq<TaskView> {
    ts.map_values(|t: TaskDetail| t@)
}

impl View for ProjectDetail {
    type V = ProjectView;

    open spec fn view(&self) -> ProjectView {
        ProjectView { id: self.id, name: self.name@, tasks: tasks_view(self.task_list@) }
    }
}

impl ProjectDetail {
    /// A copy of the project with copies of its tasks.
    pub fn duplicate(&self) -> (r: ProjectDetail)
        ensures
            r@ == self@,
    {
        let mut tasks: Vec<TaskDetail> = Vec::new();
        let n = self.task_list.len();
        let mut i: usize = 0;
        while i < n
            invariant
                n == self.task_list@.len(),
                i <= n,
                tasks@.len() == i,
                forall|k: int| 0 <= k < i ==> tasks@[k]@ == self.task_list@[k]@,
            decreases n - i,
        {
            tasks.push(self.task_list[i].duplicate());
            i = i + 1;
        }
        assert(tasks_view(tasks@) =~= tasks_view(self.task_list@));
        ProjectDetail { id: self.id, name: self.name.clone(), task_list: tasks }
    }
}

/// `i` is the position of the first project with id `id`.
pub open spec fn is_first_project(ps: Seq<ProjectView>, id: usize, i: int) -> bool {
    &&& 0 <= i < ps.len()
    &&& ps[i].id == id
    &&& forall|k: int| 0 <= k < i ==> ps[k].id != id
}

/// `j` is the position of the first task with id `id`.
pub open spec fn is_first_task(ts: Seq<TaskView>, id: usize, j: int) -> bool {
    &&& 0 <= j < ts.len()
    &&& ts[j].id == id
    &&& forall|k: int| 0 <= k < j ==> ts[k].id != id
}

/// The task with its title replaced.
pub open spec fn with_title(t: TaskView, title: Seq<char>) -> TaskView {
    TaskView { title, ..t }
}

/// The projects after the title of task `j` of project `i` became `title`.
pub open spec fn retitled(ps: Seq<ProjectView>, i: int, j: int, title: Seq<char>) -> Seq<ProjectView> {
    ps.update(i, ProjectView { tasks: ps[i].tasks.update(j, with_title(ps[i].tasks[j], title)), ..ps[i] })
}

/// All projects, in the order they were added.
pub struct ProjectRegistry {
    projects: Vec<ProjectDetail>,
}

impl View for ProjectRegistry {
    type V = Seq<ProjectView>;

    closed spec fn view(&self) -> Seq<ProjectView> {
        self.projects@.map_values(|p: ProjectDetail| p@)
    }
}

impl ProjectRegistry {
    /// An empty registry.
    pub fn new() -> (r: ProjectRegistry)
        ensures
            r@ == Seq::<ProjectView>::empty(),
    {
        let r = ProjectRegistry { projects: Vec::new() };
        assert(r@ =~= Seq::<ProjectView>::empty());
        r
    }

    /// Appends `project` and returns a copy of it, as stored.
    pub fn add_project(&mut self, project: ProjectDetail) -> (r: ProjectDetail)
        ensures
            final(self)@ == old(self)@.push(project@),
            r@ == project@,
    {
        let r = project.duplicate();
        self.projects.push(project);
        assert(self@ =~= old(self)@.push(r@));
        r
    }

    /// Position of the first project with id `id`.
    fn find_project(&self, id: usize) -> (r: Option<usize>)
        ensures
            match r {
                Some(i) => is_first_project(self@, id, i as int),
                None => forall|k: int| 0 <= k < self@.len() ==> self@[k].id != id,
            },
    {
        let n = self.projects.len();
        let mut i: usize = 0;
        while i < n
            invariant
                n == self@.len(),
                n == self.projects@.len(),
                i <= n,
                forall|k: int| 0 <= k < i ==> self@[k].id != id,
            decreases n - i,
        {
            if self.projects[i].id == id {
                return Some(i);
            }
            i = i + 1;
        }
        None
    }

    /// Sets the title of the first task with id `task_id` in the first
    /// project with id `project_id`, and returns a copy of the task as
    /// changed. Fails with `NotFound`, changing nothing, when there is no
    /// such project or that project has no such task.
    pub fn modify_task_title(&mut self, project_id: usize, task_id: usize, new_title: String) -> (r: Result<TaskDetail, WorkspaceError>)
        ensures
            forall|i: int, j: int|
                #[trigger] is_first_project(old(self)@, project_id, i)
                    && #[trigger] is_first_task(old(self)@[i].tasks, task_id, j)
                    ==> r is Ok && r->Ok_0@ == with_title(old(self)@[i].tasks[j], new_title@)
                        && final(self)@ == retitled(old(self)@, i, j, new_title@),
            r is Err ==> final(self)@ == old(self)@ && (r->Err_0 matches WorkspaceError::NotFound(m)
                && m@ == NOT_FOUND_MESSAGE@),
            r is Err <==> !exists|i: int, j: int|
                is_first_project(old(self)@, project_id, i) && is_first_task(old(self)@[i].tasks, task_id, j),
    {
        let pi = match self.find_project(project_id) {
            Some(i) => i,
            None => return Err(WorkspaceError::not_found()),
        };
        let ghost old_view = self@;
        let ghost old_projects = self.projects@;
        let mut project = self.projects.remove(pi);
        assert(project@ == old_view[pi as int]);
        let ti = match find_task(&project.task_list, task_id) {
            Some(j) => j,
            None => {
                self.projects.insert(pi, project);
                assert(self@ =~= old_view);
                return Err(WorkspaceError::not_found());
            },
        };
        let ghost old_tasks = project.task_list@;
        let mut task = project.task_list.remove(ti);
        task.title = new_title;
        let out = task.duplicate();
        project.task_list.insert(ti, task);
        assert(project.task_list@ =~= old_tasks.update(ti as int, task));
        assert(tasks_view(project.task_list@) =~= old_view[pi as int].tasks.update(
            ti as int,
            with_title(old_view[pi as int].tasks[ti as int], new_title@),
        ));
        let ghost new_project = project;
        self.projects.insert(pi, project);
        assert(self.projects@ =~= old_projects.update(pi as int, new_project));
        assert(self@ =~= retitled(old_view, pi as int, ti as int, new_title@));
        Ok(out)
    }
}

/// Position of the first task with id `id`.
fn find_task(ts: &Vec<TaskDetail>, id: usize) -> (r: Option<usize>)
    ensures
        match r {
            Some(j) => is_first_task(tasks_view(ts@), id, j as int),
            None => forall|k: int| 0 <= k < ts@.len() ==> ts@[k].id != id,
        },
{
    let n = ts.len();
    let mut j: usize = 0;
    while j < n
        invariant
            n == ts@.len(),
            j <= n,
            forall|k: int| 0 <= k < j ==> ts@[k].id != id,
        decreases n - j,
    {
        if ts[j].id == id {
            return Some(j);
        }
        j = j + 1;
    }
    None
}

} // verus!
