//! Bitmap icon resource. (`ICON`)

use crate::error::{ResError, ResErrorView};
use crate::text::{push_char, push_text};
use crate::util::{escape_path, escaped_path, FileNeed, FileNeedView, Found, FoundView};
use crate::writer::{ResWriter, WriterState};
use vstd::prelude::*;

verus! {

/// Bitmap icon resource. (`ICON`)
#[derive(Debug)]
pub struct Icon {
    id: String,
    path: String,
}

/// An [`Icon`] as sequences of characters.
pub ghost struct IconView {
    /// The identifier: a unique name or a 16-bit number in decimal.
    pub id: Seq<char>,
    /// The path of the `.ico` file, as the caller gave it.
    pub path: Seq<char>,
}

impl View for Icon {
    type V = IconView;

    closed spec fn view(&self) -> IconView {
        IconView { id: self.id@, path: self.path@ }
    }
}

/// The identifier of the default application icon, `IDI_APPLICATION`.
pub open spec fn app_icon_id() -> Seq<char> {
    "32512"@
}

/// The line of a resource definition that declares an icon.
pub open spec fn icon_line(id: Seq<char>, path: Seq<char>) -> Seq<char> {
    id + " ICON \""@ + path + seq!['"']
}

impl IconView {
    /// What the icon needs before it can be written: its path resolved.
    pub open spec fn need(self) -> FileNeedView {
        FileNeedView::Resolve(self.path)
    }

    /// The writer's state after the line that declares the icon, or the
    /// error that stands for a file that cannot be referred to.
    pub open spec fn written(self, found: FoundView, w: WriterState) -> Result<
        WriterState,
        ResErrorView,
    > {
        match escaped_path(found) {
            Ok(path) => Ok(w.line(icon_line(self.id, path))),
            Err(e) => Err(e),
        }
    }
}

impl Icon {
    /// Creates a new icon resource.
    ///
    /// * `id`: A unique name or a 16-bit unsigned integer.
    /// * `path`: Path to the `.ico` file.
    pub fn new(id: &str, path: &str) -> (r: Icon)
        ensures
            r@ == (IconView { id: id@, path: path@ }),
    {
        let mut own_id = String::new();
        push_text(&mut own_id, id);
        let mut own_path = String::new();
        push_text(&mut own_path, path);
        Icon { id: own_id, path: own_path }
    }

    /// Default application icon. (`IDI_APPLICATION`)
    pub fn app(path: &str) -> (r: Icon)
        ensures
            r@ == (IconView { id: app_icon_id(), path: path@ }),
    {
        Icon::new("32512", path)
    }

    /// The icon's identifier.
    pub fn id(&self) -> (r: &str)
        ensures
            r@ == self@.id,
    {
        self.id.as_str()
    }

    /// The path of the icon's file, as the caller gave it.
    pub fn path(&self) -> (r: &str)
        ensures
            r@ == self@.path,
    {
        self.path.as_str()
    }

    /// What the icon needs of the file system before it can be written.
    pub fn need(&self) -> (r: FileNeed)
        ensures
            r@ == self@.need(),
    {
        FileNeed::Resolve(self.path.clone())
    }

    /// Writes the resource: one line that declares the icon by the canonical
    /// path that was found for its file. Where the file cannot be referred
    /// to, nothing is written.
    pub fn write(&self, writer: &mut ResWriter, found: &Found) -> (r: Result<(), ResError>)
        ensures
            match r {
                Ok(()) => self@.written(found@, old(writer)@) == Ok::<WriterState, ResErrorView>(
                    final(writer)@,
                ),
                Err(e) => self@.written(found@, old(writer)@) == Err::<
                    WriterState,
                    ResErrorView,
                >(e@) && final(writer)@ == old(writer)@,
            },
    {
        match escape_path(found) {
            Ok(path) => {
                let mut line = String::new();
                push_text(&mut line, self.id.as_str());
                push_text(&mut line, " ICON \"");
                push_text(&mut line, path.as_str());
                push_char(&mut line, '"');
                proof {
                    assert(line@ =~= icon_line(self@.id, path@));
                }
                writer.line(line.as_str());
                Ok(())
            },
            Err(e) => Err(e),
        }
    }
}

} // verus!
