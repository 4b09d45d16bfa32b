//! The inline text editor: a caret and an optional selection over the
//! characters of one node's content.

use crate::draw::{
    DrawCommand, EDITOR_COLOR, EDITOR_SELECTION_COLOR, EDITOR_UNDERLINE_RISE,
    EDITOR_UNDERLINE_THICKNESS, FONT_SIZE,
};
use crate::geometry::{Point, Rect, Scale};
use crate::input::{Key, BACKSPACE};
use vstd::prelude::*;
use vstd::string::*;

verus! {

/// `index`, and `length` where `index` lies beyond it.
pub open spec fn clamp_index(index: int, length: int) -> int {
    if index > length {
        length
    } else {
        index
    }
}

/// Appends one character to a string by `String::push`: afterwards the
/// string holds the characters it held, followed by `character`.
#[verifier::external_body]
fn push_char(text: &mut String, character: char)
    ensures
        final(text)@ == old(text)@.push(character),
{
    text.push(character);
}

/// The editor attached to the node `node_id`. The caret stands before
/// the character at `cursor_index`. A selection runs between its two
/// ends, in either order. `last_blink` is the time, in whole seconds, of
/// the last key press.
#[derive(Clone, Copy, Debug)]
pub struct GenericNodeEditor {
    pub node_id: i64,
    pub cursor_index: usize,
    pub selection: Option<(usize, usize)>,
    pub last_blink: u64,
    pub selecting: bool,
}

impl GenericNodeEditor {
    /// The caret's place in a content of `length` characters.
    pub open spec fn caret(self, length: int) -> int {
        clamp_index(self.cursor_index as int, length)
    }

    /// The lower end of the selection in a content of `length` characters.
    pub open spec fn selection_start(self, length: int) -> int
        recommends
            self.selection is Some,
    {
        let (s, e) = self.selection->0;
        clamp_index(if s <= e { s as int } else { e as int }, length)
    }

    /// The upper end of the selection in a content of `length` characters.
    pub open spec fn selection_end(self, length: int) -> int
        recommends
            self.selection is Some,
    {
        let (s, e) = self.selection->0;
        clamp_index(if s <= e { e as int } else { s as int }, length)
    }

    /// The editor after the caret moved by `positions`, kept within a
    /// content of `length` characters.
    pub open spec fn spec_move_cursor(self, positions: int, length: int) -> GenericNodeEditor {
        let moved = self.cursor_index + positions;
        GenericNodeEditor {
            cursor_index: if moved < 0 {
                0usize
            } else if moved > length {
                length as usize
            } else {
                moved as usize
            },
            ..self
        }
    }

    /// The content after `character` arrived. A backspace removes the
    /// selected span, or without a selection the character before the
    /// caret; any other character is spliced in at the caret.
    pub open spec fn content_after_insert(self, character: char, content: Seq<char>) -> Seq<char> {
        let length = content.len() as int;
        let caret = self.caret(length);
        if character == BACKSPACE {
            if self.selection is Some {
                content.subrange(0, self.selection_start(length)) + content.subrange(
                    self.selection_end(length),
                    length,
                )
            } else if caret == 0 {
                content
            } else {
                content.subrange(0, caret - 1) + content.subrange(caret, length)
            }
        } else {
            content.subrange(0, caret).push(character) + content.subrange(caret, length)
        }
    }

    /// The editor after `character` arrived: a backspace over a selection
    /// puts the caret at the start of the span and clears the selection, a
    /// plain backspace moves the caret back by one, and any other
    /// character moves it forward by one.
    pub open spec fn editor_after_insert(
        self,
        character: char,
        content: Seq<char>,
    ) -> GenericNodeEditor {
        let length = content.len() as int;
        let caret = self.caret(length);
        if character == BACKSPACE {
            if self.selection is Some {
                GenericNodeEditor {
                    cursor_index: self.selection_start(length) as usize,
                    selection: None,
                    ..self
                }
            } else if caret == 0 {
                GenericNodeEditor { cursor_index: 0, ..self }
            } else {
                GenericNodeEditor { cursor_index: (caret - 1) as usize, ..self }
            }
        } else {
            GenericNodeEditor {
                cursor_index: if caret < usize::MAX {
                    (caret + 1) as usize
                } else {
                    usize::MAX
                },
                ..self
            }
        }
    }

    /// The editor after an arrow key moved the caret by `step`: while
    /// extending, the selection runs from its anchor (the caret's old place
    /// where there was none) to the caret's new place; otherwise it is gone.
    pub open spec fn after_arrow(self, step: int, length: int) -> GenericNodeEditor {
        let moved = self.spec_move_cursor(step, length);
        if self.selecting {
            let anchor = match self.selection {
                Some((s, _)) => s,
                None => self.cursor_index,
            };
            GenericNodeEditor { selection: Some((anchor, moved.cursor_index)), ..moved }
        } else {
            GenericNodeEditor { selection: None, ..moved }
        }
    }

    /// The editor after `key` went down at time `now`, over a content of
    /// `length` characters.
    pub open spec fn after_key_down(self, key: Key, length: int, now: u64) -> GenericNodeEditor {
        let awake = GenericNodeEditor { last_blink: now, ..self };
        match key {
            Key::Left => awake.after_arrow(-1, length),
            Key::Right => awake.after_arrow(1, length),
            Key::LShift | Key::RShift => GenericNodeEditor {
                selecting: true,
                selection: if self.selection is None {
                    Some((self.cursor_index, self.cursor_index))
                } else {
                    self.selection
                },
                ..awake
            },
            _ => awake,
        }
    }

    /// The editor after `key` went up.
    pub open spec fn after_key_up(self, key: Key) -> GenericNodeEditor {
        match key {
            Key::LShift | Key::RShift => GenericNodeEditor { selecting: false, ..self },
            _ => self,
        }
    }

    /// Whether the caret shows at time `now`: it does while the whole
    /// seconds since the last key press are even.
    pub open spec fn caret_visible(self, now: u64) -> bool {
        now <= self.last_blink || (now - self.last_blink) % 2 == 0
    }

    /// What the editor draws over the text box `rect` at `scale`, the
    /// caret standing `caret_offset` and the selection starting
    /// `selection_offset` to the right of the box's left edge: an underline,
    /// then the selection if there is one, then the caret if it shows.
    pub open spec fn spec_draw(
        self,
        rect: Rect,
        scale: Scale,
        caret_offset: i32,
        selection_offset: i32,
        now: u64,
    ) -> Seq<DrawCommand> {
        let top_left = rect.top_left;
        let bottom_left = Point { x: rect.top_left.x, y: rect.bottom_right.y };
        let rise = Point { x: 0, y: scale.spec_apply(EDITOR_UNDERLINE_RISE as int) as i32 };
        let underline = DrawCommand::Line {
            from: bottom_left.difference(rise),
            to: rect.bottom_right.difference(rise),
            thickness: scale.spec_apply(EDITOR_UNDERLINE_THICKNESS as int) as i32,
            color: EDITOR_COLOR,
        };
        let marked = DrawCommand::Rectangle {
            rect: Rect {
                top_left: top_left.sum(Point { x: selection_offset, y: 0 }),
                bottom_right: top_left.sum(
                    Point { x: caret_offset, y: scale.spec_apply(FONT_SIZE as int) as i32 },
                ),
            },
            color: EDITOR_SELECTION_COLOR,
        };
        let caret = DrawCommand::Line {
            from: top_left.sum(Point { x: caret_offset, y: 0 }),
            to: bottom_left.sum(Point { x: caret_offset, y: 0 }),
            thickness: 1,
            color: EDITOR_COLOR,
        };
        seq![underline] + (if self.selection is Some {
            seq![marked]
        } else {
            Seq::<DrawCommand>::empty()
        }) + (if self.caret_visible(now) {
            seq![caret]
        } else {
            Seq::<DrawCommand>::empty()
        })
    }

    /// An editor for the node `node_id` at time `now`, its caret behind
    /// the last character of `content`.
    pub fn new(node_id: i64, content: &String, now: u64) -> (editor: GenericNodeEditor)
        ensures
            editor == (GenericNodeEditor {
                node_id,
                cursor_index: content@.len() as usize,
                selection: None,
                last_blink: now,
                selecting: false,
            }),
    {
        GenericNodeEditor {
            node_id,
            cursor_index: content.as_str().unicode_len(),
            selection: None,
            last_blink: now,
            selecting: false,
        }
    }

    pub fn move_cursor(&mut self, positions: i32, content: &String)
        ensures
            *final(self) == old(self).spec_move_cursor(positions as int, content@.len() as int),
    {
        let length: usize = content.as_str().unicode_len();
        let moved: i128 = self.cursor_index as i128 + positions as i128;
        if moved < 0 {
            self.cursor_index = 0;
        } else if moved > length as i128 {
            self.cursor_index = length;
        } else {
            self.cursor_index = moved as usize;
        }
    }

    /// Handles a character that arrived while editing `content`, and
    /// returns the content as it is afterwards.
    pub fn insert(&mut self, character: char, content: &String) -> (updated: String)
        ensures
            updated@ == old(self).content_after_insert(character, content@),
            *final(self) == old(self).editor_after_insert(character, content@),
    {
        let text = content.as_str();
        let length: usize = text.unicode_len();
        let caret: usize = if self.cursor_index > length {
            length
        } else {
            self.cursor_index
        };
        if character == BACKSPACE {
            if let Some((s, e)) = self.selection {
                let low: usize = if s <= e { s } else { e };
                let high: usize = if s <= e { e } else { s };
                let start: usize = if low > length { length } else { low };
                let end: usize = if high > length { length } else { high };
                let mut updated = String::from_str(text.substring_char(0, start));
                updated.append(text.substring_char(end, length));
                self.cursor_index = start;
                self.selection = None;
                return updated;
            }
            if caret == 0 {
                self.cursor_index = 0;
                return content.clone();
            }
            let mut updated = String::from_str(text.substring_char(0, caret - 1));
            updated.append(text.substring_char(caret, length));
            self.cursor_index = caret - 1;
            return updated;
        }
        let mut updated = String::from_str(text.substring_char(0, caret));
        push_char(&mut updated, character);
        updated.append(text.substring_char(caret, length));
        self.cursor_index = if caret < usize::MAX {
            caret + 1
        } else {
            usize::MAX
        };
        updated
    }

    /// Handles a key press at time `now` while editing `content`.
    pub fn handle_key_down(&mut self, key: Key, content: &String, now: u64)
        ensures
            *final(self) == old(self).after_key_down(key, content@.len() as int, now),
    {
        self.last_blink = now;
        match key {
            Key::Left => {
                self.arrow(-1, content);
            },
            Key::Right => {
                self.arrow(1, content);
            },
            Key::LShift | Key::RShift => {
                self.selecting = true;
                if self.selection.is_none() {
                    self.selection = Some((self.cursor_index, self.cursor_index));
                }
            },
            _ => {},
        }
    }

    fn arrow(&mut self, step: i32, content: &String)
        ensures
            *final(self) == old(self).after_arrow(step as int, content@.len() as int),
    {
        let anchor: usize = match self.selection {
            Some((s, _)) => s,
            None => self.cursor_index,
        };
        self.move_cursor(step, content);
        if self.selecting {
            self.selection = Some((anchor, self.cursor_index));
        } else {
            self.selection = None;
        }
    }

    pub fn handle_key_up(&mut self, key: Key)
        ensures
            *final(self) == old(self).after_key_up(key),
    {
        match key {
            Key::LShift | Key::RShift => {
                self.selecting = false;
            },
            _ => {},
        }
    }

    /// How many leading characters of a content of `length` characters
    /// stand before the caret, and before the selection if there is one.
    /// Their measured widths are the two offsets that `draw` takes.
    pub fn measured_prefixes(&self, length: usize) -> (prefixes: (usize, Option<usize>))
        ensures
            prefixes.0 as int == self.caret(length as int),
            prefixes.1 is Some == self.selection is Some,
            self.selection is Some ==> prefixes.1->0 as int == self.selection_start(length as int),
    {
        let caret: usize = if self.cursor_index > length {
            length
        } else {
            self.cursor_index
        };
        match self.selection {
            Some((s, e)) => {
                let low: usize = if s <= e { s } else { e };
                (caret, Some(if low > length { length } else { low }))
            },
            None => (caret, None),
        }
    }

    /// Whether the caret shows at time `now`.
    pub fn is_caret_visible(&self, now: u64) -> (visible: bool)
        ensures
            visible == self.caret_visible(now),
    {
        now <= self.last_blink || (now - self.last_blink) % 2 == 0
    }

    /// The drawing requests of the editor over the cached text box
    /// `bounds` of its node.
    pub fn draw(
        &self,
        bounds: &(Rect, Scale),
        caret_offset: i32,
        selection_offset: i32,
        now: u64,
    ) -> (commands: Vec<DrawCommand>)
        ensures
            commands@ == self.spec_draw(bounds.0, bounds.1, caret_offset, selection_offset, now),
    {
        let rect = bounds.0;
        let scale = bounds.1;
        let top_left = rect.top_left;
        let bottom_left = Point { x: rect.top_left.x, y: rect.bottom_right.y };
        let rise = Point { x: 0, y: scale.apply(EDITOR_UNDERLINE_RISE) };
        let mut commands: Vec<DrawCommand> = Vec::new();
        commands.push(
            DrawCommand::Line {
                from: bottom_left.minus(rise),
                to: rect.bottom_right.minus(rise),
                thickness: scale.apply(EDITOR_UNDERLINE_THICKNESS),
                color: EDITOR_COLOR,
            },
        );
        if self.selection.is_some() {
            commands.push(
                DrawCommand::Rectangle {
                    rect: Rect {
                        top_left: top_left.plus(Point { x: selection_offset, y: 0 }),
                        bottom_right: top_left.plus(
                            Point { x: caret_offset, y: scale.apply(FONT_SIZE) },
                        ),
                    },
                    color: EDITOR_SELECTION_COLOR,
                },
            );
        }
        if self.is_caret_visible(now) {
            commands.push(
                DrawCommand::Line {
                    from: top_left.plus(Point { x: caret_offset, y: 0 }),
                    to: bottom_left.plus(Point { x: caret_offset, y: 0 }),
                    thickness: 1,
                    color: EDITOR_COLOR,
                },
            );
        }
        proof {
            assert(commands@ =~= self.spec_draw(
                bounds.0,
                bounds.1,
                caret_offset,
                selection_offset,
                now,
            ));
        }
        commands
    }
}

} // verus!
