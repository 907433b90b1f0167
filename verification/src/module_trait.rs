use vstd::prelude::*;

use crate::zsh::Zsh;

verus! {

/// A zsh module: made once when zsh loads it, then set up with access to the shell.
pub trait Module: Sized {
    fn new() -> Self;

    fn setup(&mut self, zsh: Zsh)
        default_ensures
            *final(self) == *old(self),
    {
        let _ = zsh;
    }
}

} // verus!
