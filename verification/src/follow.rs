//! Where a follow starts: which way the log is read, and which task is followed.

use crate::task::{comma_list, join_ids, running_ids, select_running_task, Selection, TaskRef};
use vstd::prelude::*;
use vstd::string::StringExecFns;

verus! {

/// The way in which a log is followed.
#[derive(Clone, Copy, Debug, PartialEq, Eq, Structural)]
pub enum FollowPath {
    /// The log file is read on this machine.
    Local,
    /// The daemon streams the log.
    Remote,
}

/// Picks the way in which a log is followed: from the file where logs are read locally,
/// else through the daemon.
pub fn follow(read_local_logs: bool) -> (path: FollowPath)
    ensures
        path == if read_local_logs {
            FollowPath::Local
        } else {
            FollowPath::Remote
        },
{
    if read_local_logs {
        FollowPath::Local
    } else {
        FollowPath::Remote
    }
}

/// The task that a local follow is about, or the reason why there is none.
pub open spec fn followed(task_id: Option<usize>, tasks: Seq<TaskRef>) -> Result<usize, Seq<char>> {
    match task_id {
        Some(id) => Ok(id),
        None => {
            let ids = running_ids(tasks);
            if ids.len() == 0 {
                Err("There are no running tasks."@)
            } else if ids.len() == 1 {
                Ok(ids[0])
            } else {
                Err(
                    "Multiple tasks are running, please select one of the following: "@
                        + comma_list(ids),
                )
            }
        },
    }
}

/// Settles which task a local follow is about: the task that was named, or else the one
/// task that is running according to the snapshot `tasks`. With no task named and none or
/// several running, the follow fails with a message; the ids of several are listed.
pub fn local_follow(task_id: Option<usize>, tasks: &[TaskRef]) -> (task: Result<usize, String>)
    ensures
        match task {
            Ok(id) => followed(task_id, tasks@) == Ok::<usize, Seq<char>>(id),
            Err(message) => followed(task_id, tasks@) == Err::<usize, Seq<char>>(message@),
        },
{
    match task_id {
        Some(id) => Ok(id),
        None => match select_running_task(tasks) {
            Selection::Selected(id) => Ok(id),
            Selection::NoneRunning => Err(String::from_str("There are no running tasks.")),
            Selection::Ambiguous(ids) => {
                let mut message = String::from_str(
                    "Multiple tasks are running, please select one of the following: ",
                );
                let list = join_ids(ids.as_slice());
                message.append(list.as_str());
                Err(message)
            },
        },
    }
}

} // verus!
