//! Announcing windows to other clients.
use vstd::prelude::*;

use crate::state::Fht;

verus! {

/// A window, as far as it is announced to other clients.
#[derive(Debug)]
pub struct Window {
    pub id: u64,
    pub title: Option<String>,
    pub app_id: Option<String>,
    /// The handle by which other clients know the window.
    pub foreign_toplevel_handle: Option<u64>,
}

/// What a window is announced with.
#[derive(Debug)]
pub struct Announcement {
    pub title: String,
    pub app_id: String,
}

/// What other clients are told when the details of a window changed.
#[derive(Debug)]
pub enum WindowDetails {
    /// The handle is told the new details, as far as there are any.
    Update { handle: u64, title: Option<String>, app_id: Option<String> },
    /// The window is announced only now.
    Announce(Announcement),
}

impl Window {
    /// The name of the application, empty where there is none.
    pub open spec fn announced_app_id(&self) -> Seq<char> {
        match self.app_id {
            Some(app_id) => app_id@,
            None => Seq::empty(),
        }
    }

    /// The title, the name of the application where there is none.
    pub open spec fn announced_title(&self) -> Seq<char> {
        match self.title {
            Some(title) => title@,
            None => self.announced_app_id(),
        }
    }

    /// Nothing but the handle differs from `other`.
    pub open spec fn same_but_handle(&self, other: &Window) -> bool {
        self.id == other.id && self.title == other.title && self.app_id == other.app_id
    }
}

impl Fht {
    /// Adversite a new window to other clients, by a handle that is made for it.
    ///
    /// Returns what the handle is made with; `None` where the window already has one, which it
    /// keeps.
    pub fn adversite_new_foreign_window(&mut self, window: &mut Window, handle: u64) -> (r: Option<
        Announcement,
    >)
        ensures
            *final(self) == *old(self),
            final(window).same_but_handle(&*old(window)),
            r is None <==> old(window).foreign_toplevel_handle is Some,
            final(window).foreign_toplevel_handle == if r is Some {
                Some(handle)
            } else {
                old(window).foreign_toplevel_handle
            },
            r matches Some(a) ==> a.title@ == old(window).announced_title() && a.app_id@ == old(
                window,
            ).announced_app_id(),
    {
        if window.foreign_toplevel_handle.is_some() {
            return None;
        }
        let app_id = match &window.app_id {
            Some(app_id) => app_id.clone(),
            None => String::new(),
        };
        let title = match &window.title {
            Some(title) => title.clone(),
            None => app_id.clone(),
        };
        window.foreign_toplevel_handle = Some(handle);
        Some(Announcement { title, app_id })
    }

    /// De-adversite a window. Returns the handle to remove, if the window has one.
    pub fn close_foreign_handle(&mut self, window: &mut Window) -> (handle: Option<u64>)
        ensures
            *final(self) == *old(self),
            final(window).same_but_handle(&*old(window)),
            handle == old(window).foreign_toplevel_handle,
            final(window).foreign_toplevel_handle is None,
    {
        window.foreign_toplevel_handle.take()
    }

    /// Tell other clients about the new details of a window. A window that was not announced
    /// before, which should not happen, is announced by `handle`.
    pub fn send_foreign_window_details(&mut self, window: &mut Window, handle: u64) -> (r:
        WindowDetails)
        ensures
            *final(self) == *old(self),
            final(window).same_but_handle(&*old(window)),
            match old(window).foreign_toplevel_handle {
                Some(h) => {
                    &&& r == (WindowDetails::Update {
                        handle: h,
                        title: old(window).title,
                        app_id: old(window).app_id,
                    })
                    &&& final(window).foreign_toplevel_handle == Some(h)
                },
                None => {
                    &&& r matches WindowDetails::Announce(a) && a.title@ == old(
                        window,
                    ).announced_title() && a.app_id@ == old(window).announced_app_id()
                    &&& final(window).foreign_toplevel_handle == Some(handle)
                },
            },
    {
        if let Some(h) = window.foreign_toplevel_handle {
            let title = match &window.title {
                Some(title) => Some(title.clone()),
                None => None,
            };
            let app_id = match &window.app_id {
                Some(app_id) => Some(app_id.clone()),
                None => None,
            };
            return WindowDetails::Update { handle: h, title, app_id };
        }
        match self.adversite_new_foreign_window(window, handle) {
            Some(announcement) => WindowDetails::Announce(announcement),
            None => WindowDetails::Update { handle, title: None, app_id: None },
        }
    }
}

/// A window is announced once, with its title and the name of its application; the latter stands in
/// for a title, and an empty text for the name. An announced window keeps its handle.
pub proof fn windows_are_announced_once(
    fht: &mut Fht,
    window: &mut Window,
    handle: u64,
    announced: Option<Announcement>,
)
    requires
        call_ensures(Fht::adversite_new_foreign_window, (fht, window, handle), announced),
    ensures
        old(window).foreign_toplevel_handle is Some ==> announced is None && final(
            window
        ).foreign_toplevel_handle == old(window).foreign_toplevel_handle,
        old(window).foreign_toplevel_handle is None ==> announced is Some && final(
            window
        ).foreign_toplevel_handle == Some(handle),
        announced matches Some(told) ==> {
            &&& old(window).title matches Some(title) ==> told.title@ == title@
            &&& old(window).app_id matches Some(app_id) ==> told.app_id@ == app_id@
            &&& old(window).app_id is None ==> told.app_id@.len() == 0
            &&& old(window).title is None ==> told.title@ == told.app_id@
        },
        final(window).title == old(window).title,
        final(window).app_id == old(window).app_id,
        final(window).id == old(window).id,
{
}

/// The handle of a window that is closed is taken back, so that it can be announced again.
pub proof fn closed_windows_lose_their_handle(
    fht: &mut Fht,
    window: &mut Window,
    handle: Option<u64>,
)
    requires
        call_ensures(Fht::close_foreign_handle, (fht, window), handle),
    ensures
        handle == old(window).foreign_toplevel_handle,
        final(window).foreign_toplevel_handle is None,
        final(window).title == old(window).title,
        final(window).app_id == old(window).app_id,
{
}

/// New details of a window are told to its handle, as they are; a window that has none is announced
/// instead, and has one then.
pub proof fn details_are_told_to_the_handle(
    fht: &mut Fht,
    window: &mut Window,
    handle: u64,
    told: WindowDetails,
)
    requires
        call_ensures(Fht::send_foreign_window_details, (fht, window, handle), told),
    ensures
        final(window).foreign_toplevel_handle is Some,
        match old(window).foreign_toplevel_handle {
            Some(known) => final(window).foreign_toplevel_handle == Some(known) && told is Update
                && told->handle == known && told->Update_title == old(window).title
                && told->Update_app_id == old(window).app_id,
            None => final(window).foreign_toplevel_handle == Some(handle) && told is Announce
                && (old(window).title matches Some(title) ==> told->Announce_0.title@ == title@)
                && (old(window).app_id matches Some(app_id) ==> told->Announce_0.app_id@
                == app_id@),
        },
{
}

} // verus!
