//! Endpoint rotation list: the ordered candidate server addresses (primary
//! first, backups following) and the currently selected index.
//!
//! The list never grows or shrinks after construction; only the rotation
//! operation moves the cursor, and exhausting the list is an observable
//! condition rather than a silent wrap.
use vstd::prelude::*;

use crate::config::Configure;

verus! {

/// Ordered server addresses with a rotation cursor.
///
/// `current_loc` is `None` before the first rotation; once started it is
/// `Some(i)` with `i <= address.len()`, where `i == address.len()` means the
/// list is exhausted.
#[derive(Debug)]
pub struct ServerAddress {
    pub address: Vec<String>,
    pub current_loc: Option<usize>,
}

/// Cursor position after one rotation over a list of `len` addresses: the
/// first rotation selects index 0, later ones advance until the cursor
/// rests just past the last index.
pub open spec fn advance_cursor(c: Option<usize>, len: nat) -> Option<usize> {
    match c {
        None => Some(0usize),
        Some(i) => if i < len {
            Some((i + 1) as usize)
        } else {
            Some(i)
        },
    }
}

impl ServerAddress {
    /// Structural invariant: the cursor, once started, never runs past the
    /// exhaustion mark.
    pub open spec fn well_formed(&self) -> bool {
        self.current_loc matches Some(i) ==> i <= self.address@.len()
    }

    /// Whether the cursor currently selects an address.
    pub open spec fn has_selection(&self) -> bool {
        self.current_loc matches Some(i) && i < self.address@.len()
    }

    /// Whether one more rotation would select an address (rather than
    /// exhaust the list).
    pub open spec fn rotation_available(&self) -> bool {
        match self.current_loc {
            None => self.address@.len() > 0,
            Some(i) => i + 1 < self.address@.len(),
        }
    }

    /// Cursor position after one rotation.
    pub open spec fn advanced_cursor(&self) -> Option<usize> {
        advance_cursor(self.current_loc, self.address@.len())
    }

    /// Builds the list from configuration: the primary address first, the
    /// backup addresses following in their given order; rotation not started.
    pub fn new(cfg: &Configure) -> (r: ServerAddress)
        ensures
            r.well_formed(),
            r.current_loc is None,
            r.address@.len() == 1 + (match cfg.server.backup_servers {
                Some(bs) => bs@.len(),
                None => 0,
            }),
            r.address@[0] == cfg.server.server_address,
            cfg.server.backup_servers matches Some(bs) ==> forall|j: int|
                0 <= j < bs@.len() ==> r.address@[j + 1] == bs@[j],
    {
        let mut adr: Vec<String> = Vec::new();
        adr.push(cfg.server.server_address.clone());
        if let Some(servers) = &cfg.server.backup_servers {
            let mut j: usize = 0;
            while j < servers.len()
                invariant
                    j <= servers@.len(),
                    adr@.len() == 1 + j,
                    adr@[0] == cfg.server.server_address,
                    forall|k: int| 0 <= k < j ==> adr@[k + 1] == servers@[k],
                decreases servers@.len() - j,
            {
                adr.push(servers[j].clone());
                j = j + 1;
            }
        }
        ServerAddress { address: adr, current_loc: None }
    }

    /// The currently selected address, or none when rotation has not started
    /// or the list is exhausted.
    pub fn get(&self) -> (r: Option<&String>)
        requires
            self.well_formed(),
        ensures
            r is Some <==> self.has_selection(),
            r matches Some(s) ==> (self.current_loc matches Some(i) && s == self.address@[i as int]),
    {
        match self.current_loc {
            Some(i) if i < self.address.len() => Some(&self.address[i]),
            _ => None,
        }
    }

    /// The currently selected address; callers must know one is selected.
    pub fn get_unwrap(&self) -> (r: &String)
        requires
            self.well_formed(),
            self.has_selection(),
        ensures
            self.current_loc matches Some(i) && r == self.address@[i as int],
    {
        let r = self.get();
        match r {
            Some(s) => s,
            None => unreached(),
        }
    }

    /// Advances to the next address and returns it, or none once the list
    /// is exhausted.  From the unselected state the first rotation selects
    /// the primary address.
    pub fn next(&mut self) -> (r: Option<&String>)
        requires
            old(self).well_formed(),
        ensures
            final(self).well_formed(),
            final(self).address == old(self).address,
            final(self).current_loc == old(self).advanced_cursor(),
            r is Some <==> old(self).rotation_available(),
            r matches Some(s) ==> (final(self).current_loc matches Some(i)
                && s == final(self).address@[i as int]),
    {
        match self.current_loc {
            None => {
                self.current_loc = Some(0);
            },
            Some(i) => {
                if i < self.address.len() {
                    self.current_loc = Some(i + 1);
                }
            },
        }
        self.get()
    }

    /// How many candidate addresses the list holds.
    pub fn len(&self) -> (r: usize)
        ensures
            r == self.address@.len(),
    {
        self.address.len()
    }
}

} // verus!
