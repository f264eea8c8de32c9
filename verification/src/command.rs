use vstd::prelude::*;

use crate::error::{Error, Result};

verus! {

/// Number of distinct task tags: one per value of a byte.
pub const TASK_TAG_COUNT: usize = 256;

/// The tag that identifies a command to the controller.
#[derive(Clone, Copy, Debug, PartialEq, Eq, Structural)]
pub struct TaskTag(pub u8);

impl TaskTag {
    pub fn from_value(tag: u8) -> (r: TaskTag)
        ensures
            r.0 == tag,
    {
        TaskTag(tag)
    }

    /// A tag from a block-layer tag, which must fit in a byte.
    pub fn new(tag: u32) -> (r: Result<TaskTag>)
        ensures
            tag < 256 ==> r == Ok::<TaskTag, Error>(TaskTag(tag as u8)),
            tag >= 256 ==> r == Err::<TaskTag, Error>(Error::Invalid),
    {
        if tag < 256 {
            Ok(TaskTag(tag as u8))
        } else {
            Err(Error::Invalid)
        }
    }

    pub fn value(self) -> (r: u8)
        ensures
            r == self.0,
    {
        self.0
    }

    pub fn index(self) -> (r: usize)
        ensures
            r == self.0 as usize,
            r < TASK_TAG_COUNT,
    {
        self.0 as usize
    }
}

} // verus!
