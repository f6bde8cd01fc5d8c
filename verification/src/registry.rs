//! Window-class registration: the descriptor of a window class and the
//! process-wide registry of registered classes.
//!
//! A class is registered at most once per name per process; registering the
//! same name again fails.  No unregistration path exists — a registration
//! persists until the process exits.

use vstd::prelude::*;
use crate::config::{ARROW_CURSOR, BACKGROUND_BRUSH, CLASS_STYLES, DEFAULT_ICON};

verus! {

/// Describes how the windowing subsystem should treat windows of one class:
/// redraw behavior, stock icon and cursor, background, and the dispatch
/// entry point invoked for every notification on windows of the class.
pub struct ClassDescriptor {
    /// Class style bits (redraw the window on a resize in either axis).
    pub style: u32,
    /// Stock resource identifier of the class icon.
    pub icon: u32,
    /// Stock resource identifier of the class cursor.
    pub cursor: u32,
    /// Stock resource identifier of the small class icon.
    pub small_icon: u32,
    /// System brush index of the non-transparent background.
    pub background: u32,
    /// The process-module handle owning the class.
    pub module: u64,
    /// The class name.
    pub name: String,
    /// Whether a dispatch entry point is set; the registered dispatcher is
    /// the single callback invoked for every window of the class.
    pub has_dispatcher: bool,
}

/// Builds the descriptor of the main window class for the given module and
/// class name: redraw-on-resize in both axes, default application icon and
/// arrow cursor from stock resources, a non-transparent window-color
/// background, and the dispatcher as entry point.
pub fn class_descriptor(module: u64, name: String) -> (d: ClassDescriptor)
    ensures
        d.style == CLASS_STYLES,
        d.icon == DEFAULT_ICON,
        d.cursor == ARROW_CURSOR,
        d.small_icon == DEFAULT_ICON,
        d.background == BACKGROUND_BRUSH,
        d.module == module,
        d.name == name,
        d.has_dispatcher,
{
    ClassDescriptor {
        style: CLASS_STYLES,
        icon: DEFAULT_ICON,
        cursor: ARROW_CURSOR,
        small_icon: DEFAULT_ICON,
        background: BACKGROUND_BRUSH,
        module,
        name,
        has_dispatcher: true,
    }
}

/// The process-wide registry of window classes, in registration order.
pub struct ClassRegistry {
    /// The registered descriptors.
    pub classes: Vec<ClassDescriptor>,
}

impl ClassRegistry {
    /// Whether a class of the given name is registered.
    pub open spec fn registered(&self, name: Seq<char>) -> bool {
        exists|i: int| 0 <= i < self.classes@.len() && self.classes@[i].name@ == name
    }

    /// A registry with no class registered, as a fresh process has it.
    pub fn new() -> (r: Self)
        ensures
            r.classes@ == Seq::<ClassDescriptor>::empty(),
            forall|n: Seq<char>| !r.registered(n),
    {
        let r = ClassRegistry { classes: Vec::new() };
        assert(forall|n: Seq<char>| !r.registered(n));
        r
    }

    /// Whether a class of the given name is registered.
    pub fn is_registered(&self, name: &String) -> (b: bool)
        ensures
            b == self.registered(name@),
    {
        let mut i: usize = 0;
        while i < self.classes.len()
            invariant
                0 <= i <= self.classes@.len(),
                forall|j: int| 0 <= j < i ==> self.classes@[j].name@ != name@,
            decreases self.classes@.len() - i,
        {
            if self.classes[i].name.eq(name) {
                return true;
            }
            i += 1;
        }
        false
    }

    /// Registers a class described by `descriptor`, reporting success as the
    /// windowing subsystem does: registration succeeds exactly when no class
    /// of the same name is registered yet, and then appends the descriptor;
    /// a duplicate name leaves the registry unchanged and fails.
    pub fn register(&mut self, descriptor: ClassDescriptor) -> (ok: bool)
        ensures
            ok == !old(self).registered(descriptor.name@),
            ok ==> final(self).classes@ == old(self).classes@.push(descriptor),
            !ok ==> *final(self) == *old(self),
            final(self).registered(descriptor.name@),
    {
        if self.is_registered(&descriptor.name) {
            false
        } else {
            let ghost name_view = descriptor.name@;
            self.classes.push(descriptor);
            assert(self.classes@[self.classes@.len() - 1].name@ == name_view);
            true
        }
    }
}

} // verus!
