//! Menu widget.

use super::{Obj, Widget};
use crate::copy_bytes;
use vstd::prelude::*;

verus! {

/// A page of a menu.
#[derive(Debug)]
pub struct MenuPage {
    pub base: Obj,
    /// The page title, as bytes.
    pub title: Vec<u8>,
}

impl Widget for MenuPage {
    open spec fn base_spec(&self) -> Obj {
        self.base
    }

    open spec fn with_base_spec(&self, b: Obj) -> MenuPage {
        MenuPage { base: b, ..*self }
    }

    fn base(&self) -> (r: &Obj) {
        &self.base
    }

    fn base_mut(&mut self) -> (r: &mut Obj) {
        &mut self.base
    }
}

/// A section of a menu page.
#[derive(Clone, Copy, Debug)]
pub struct MenuSection {
    pub base: Obj,
}

impl Widget for MenuSection {
    open spec fn base_spec(&self) -> Obj {
        self.base
    }

    open spec fn with_base_spec(&self, b: Obj) -> MenuSection {
        MenuSection { base: b }
    }

    fn base(&self) -> (r: &Obj) {
        &self.base
    }

    fn base_mut(&mut self) -> (r: &mut Obj) {
        &mut self.base
    }
}

/// A separator between menu entries.
#[derive(Clone, Copy, Debug)]
pub struct MenuSeparator {
    pub base: Obj,
}

impl Widget for MenuSeparator {
    open spec fn base_spec(&self) -> Obj {
        self.base
    }

    open spec fn with_base_spec(&self, b: Obj) -> MenuSeparator {
        MenuSeparator { base: b }
    }

    fn base(&self) -> (r: &Obj) {
        &self.base
    }

    fn base_mut(&mut self) -> (r: &mut Obj) {
        &mut self.base
    }
}

/// Menu widget: hierarchical pages with navigation history.
#[derive(Clone, Copy, Debug)]
pub struct Menu {
    pub base: Obj,
    /// How many pages were created for this menu.
    pub page_count: u64,
    /// How many page changes the navigation history holds.
    pub history_len: u64,
    /// Whether the header shows the mode switch.
    pub mode_header: bool,
    /// Whether a sidebar page is set.
    pub has_sidebar: bool,
}

impl Menu {
    /// Create a new menu as a child of the given parent.
    pub fn new<W: Widget>(parent: &mut W) -> (r: Option<Menu>)
        requires
            old(parent).base_spec().child_count < u64::MAX,
        ensures
            *final(parent) == old(parent).with_base_spec(
                old(parent).base_spec().with_child_inc(),
            ),
            r == Some(
                Menu {
                    base: Obj::initial(),
                    page_count: 0,
                    history_len: 0,
                    mode_header: false,
                    has_sidebar: false,
                },
            ),
    {
        let pb = parent.base_mut();
        pb.child_count = pb.child_count + 1;
        Some(
            Menu {
                base: Obj::new_initial(),
                page_count: 0,
                history_len: 0,
                mode_header: false,
                has_sidebar: false,
            },
        )
    }

    /// Create a page for this menu.
    pub fn create_page(&mut self, title: &[u8]) -> (r: Option<MenuPage>)
        requires
            old(self).page_count < u64::MAX,
        ensures
            *final(self) == (Menu {
                page_count: (old(self).page_count + 1) as u64,
                ..*old(self)
            }),
            r matches Some(p) && p.base == Obj::initial() && p.title@ == title@,
    {
        self.page_count = self.page_count + 1;
        Some(MenuPage { base: Obj::new_initial(), title: copy_bytes(title) })
    }

    /// Add a section to a page; the child is counted on the page.
    pub fn add_section(&self, page: &mut MenuPage) -> (r: Option<MenuSection>)
        requires
            old(page).base.child_count < u64::MAX,
        ensures
            final(page).base == old(page).base.with_child_inc(),
            final(page).title@ == old(page).title@,
            r == Some(MenuSection { base: Obj::initial() }),
    {
        let pb = page.base_mut();
        pb.child_count = pb.child_count + 1;
        Some(MenuSection { base: Obj::new_initial() })
    }

    /// Add a separator under the given parent; the child is counted.
    pub fn add_separator<W: Widget>(&self, parent: &mut W) -> (r: Option<MenuSeparator>)
        requires
            old(parent).base_spec().child_count < u64::MAX,
        ensures
            *final(parent) == old(parent).with_base_spec(
                old(parent).base_spec().with_child_inc(),
            ),
            r == Some(MenuSeparator { base: Obj::initial() }),
    {
        let pb = parent.base_mut();
        pb.child_count = pb.child_count + 1;
        Some(MenuSeparator { base: Obj::new_initial() })
    }

    /// Show a page; the change is recorded in the navigation history.
    pub fn set_page(&mut self, _page: &MenuPage)
        requires
            old(self).history_len < u64::MAX,
        ensures
            *final(self) == (Menu {
                history_len: (old(self).history_len + 1) as u64,
                ..*old(self)
            }),
    {
        self.history_len = self.history_len + 1;
    }

    /// Clear the navigation history.
    pub fn clear_history(&mut self)
        ensures
            *final(self) == (Menu { history_len: 0, ..*old(self) }),
    {
        self.history_len = 0;
    }

    /// Set a sidebar page.
    pub fn set_sidebar_page(&mut self, _page: &MenuPage)
        ensures
            *final(self) == (Menu { has_sidebar: true, ..*old(self) }),
    {
        self.has_sidebar = true;
    }

    /// Show or hide the mode switch in the header.
    pub fn set_mode_header(&mut self, mode: bool)
        ensures
            *final(self) == (Menu { mode_header: mode, ..*old(self) }),
    {
        self.mode_header = mode;
    }
}

impl Widget for Menu {
    open spec fn base_spec(&self) -> Obj {
        self.base
    }

    open spec fn with_base_spec(&self, b: Obj) -> Menu {
        Menu { base: b, ..*self }
    }

    fn base(&self) -> (r: &Obj) {
        &self.base
    }

    fn base_mut(&mut self) -> (r: &mut Obj) {
        &mut self.base
    }
}

} // verus!
