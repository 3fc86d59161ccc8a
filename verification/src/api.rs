//! The capability handle given to the handler at construction time.

use vstd::prelude::*;

use crate::sys::Riru;

verus! {

/// Process-wide affordances the handler may use for the whole process
/// lifetime: the module's install path, and the host's unload-permission
/// cell. The cell is nullable on the host side; when the host did not
/// supply it, writes to it are silent no-ops, so nothing may depend on
/// such a write taking effect.
pub struct Api {
    pub install_path: String,
    pub allow_unload: Option<i32>,
}

impl Api {
    /// Capture the handle out of the host's protocol descriptor: the
    /// install path is copied, the unload-permission cell is taken as the
    /// host supplied it.
    pub fn from_descriptor(riru: &Riru) -> (api: Api)
        ensures
            api.install_path@ == riru.magisk_module_path@,
            api.allow_unload == riru.allow_unload,
    {
        Api {
            install_path: riru.magisk_module_path.clone(),
            allow_unload: riru.allow_unload,
        }
    }

    /// Ask the host to keep the plugin loaded (`false`) or allow it to be
    /// unloaded (`true`). The flag is written in the host's truthiness
    /// convention; when the host supplied no cell the call changes
    /// nothing and must not fault. The shell reads the flag back through
    /// `Module::allow_unload_flag` after the entry point and after every
    /// hook call and writes it into the host's own cell, so the new value
    /// reaches host memory at the next such sync point.
    pub fn set_allow_unload(&mut self, allow_unload: bool)
        ensures
            old(self).allow_unload is Some ==> final(self).allow_unload == (if allow_unload {
                Some(1i32)
            } else {
                Some(0i32)
            }),
            old(self).allow_unload is None ==> final(self).allow_unload is None,
            final(self).install_path == old(self).install_path,
    {
        if self.allow_unload.is_some() {
            if allow_unload {
                self.allow_unload = Some(1);
            } else {
                self.allow_unload = Some(0);
            }
        }
    }

    /// The module's install path, valid for the handle's whole lifetime.
    pub fn get_module_path(&self) -> (r: &str)
        ensures
            r@ == self.install_path@,
    {
        self.install_path.as_str()
    }
}

} // verus!
