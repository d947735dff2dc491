//! The properties of a worker's thread.

use vstd::prelude::*;

verus! {

/// Used to configure the properties of a new worker's thread: its name and its
/// stack size. Properties left unset take the platform's defaults.
#[derive(Debug)]
pub struct Settings {
    name: Option<String>,
    stack_size: Option<usize>,
}

impl Settings {
    /// The name the thread will be given, if one was set.
    pub closed spec fn thread_name(&self) -> Option<Seq<char>> {
        match self.name {
            Some(n) => Some(n@),
            None => None,
        }
    }

    /// The stack size the thread will be given, if one was set.
    pub closed spec fn thread_stack_size(&self) -> Option<usize> {
        self.stack_size
    }

    /// Returns the base [`Settings`] with default parameters.
    pub fn new() -> (s: Self)
        ensures
            s.thread_name() is None,
            s.thread_stack_size() is None,
    {
        Settings { name: None, stack_size: None }
    }

    /// Sets the thread's name.
    ///
    /// The name must not contain null bytes (`\0`): spawning a thread with such a
    /// name panics.
    pub fn name(self, name: &str) -> (s: Self)
        ensures
            s.thread_name() == Some(name@),
            s.thread_stack_size() == self.thread_stack_size(),
    {
        Settings { name: Some(String::from_str(name)), stack_size: self.stack_size }
    }

    /// Sets the thread's stack size.
    ///
    /// The actual stack size may be greater than this value if the platform specifies
    /// a minimal stack size.
    pub fn stack_size(self, size: usize) -> (s: Self)
        ensures
            s.thread_name() == self.thread_name(),
            s.thread_stack_size() == Some(size),
    {
        Settings { name: self.name, stack_size: Some(size) }
    }

    /// Returns whether the name, if any, is one a thread can be spawned with:
    /// it holds no null byte.
    pub fn has_valid_name(&self) -> (b: bool)
        ensures
            b == (self.thread_name() matches Some(n) ==> !n.contains('\0')),
    {
        match &self.name {
            None => true,
            Some(n) => {
                let s = n.as_str();
                let len = s.unicode_len();
                let mut i: usize = 0;
                while i < len
                    invariant
                        len == s@.len(),
                        s@ == n@,
                        self.thread_name() == Some(n@),
                        i <= len,
                        forall|j: int| 0 <= j < i ==> s@[j] != '\0',
                    decreases len - i,
                {
                    if s.get_char(i) == '\0' {
                        assert(n@[i as int] == '\0');
                        return false;
                    }
                    i = i + 1;
                }
                true
            },
        }
    }

    /// Consumes the settings and returns the name and the stack size that were set.
    pub fn into_parts(self) -> (parts: (Option<String>, Option<usize>))
        ensures
            parts.1 == self.thread_stack_size(),
            match parts.0 {
                Some(n) => self.thread_name() == Some(n@),
                None => self.thread_name() is None,
            },
    {
        (self.name, self.stack_size)
    }
}

impl Default for Settings {
    fn default() -> (s: Self)
        ensures
            s.thread_name() is None,
            s.thread_stack_size() is None,
    {
        Settings::new()
    }
}

} // verus!
