//! Finding the kernel's control file, and the slot that holds its handle.
//!
//! The control file is `user_events_data` in the tracing file system. Its
//! place is read off the mount table; the handle, or the error that stood
//! in its way, is kept in one slot that is filled once and then shared.

use vstd::prelude::*;

verus! {

/// The slot value that stands for "not tried yet" (`-EAGAIN`).
pub const EAGAIN_ERROR: i32 = -11;

/// The longest line of the mount table that is read, with its terminator.
pub const MOUNT_LINE_MAX: usize = 4097;

/// True for the characters that separate the fields of a mount line.
pub open spec fn spec_is_space_char(ch: u8) -> bool {
    ch == 32 || ch == 9
}

/// True for the characters that a field of a mount line is made of.
pub open spec fn spec_is_nonspace_char(ch: u8) -> bool {
    ch != 0 && !spec_is_space_char(ch)
}

/// The byte at `i`, or the terminator past the end of the line.
pub open spec fn byte_at(line: Seq<u8>, i: int) -> u8 {
    if 0 <= i < line.len() {
        line[i]
    } else {
        0
    }
}

/// The first position from `i` on that holds no field character.
pub open spec fn skip_nonspace(line: Seq<u8>, i: int) -> int
    decreases line.len() - i,
{
    if 0 <= i < line.len() && spec_is_nonspace_char(line[i]) {
        skip_nonspace(line, i + 1)
    } else {
        i
    }
}

/// The first position from `i` on that holds no separator.
pub open spec fn skip_space(line: Seq<u8>, i: int) -> int
    decreases line.len() - i,
{
    if 0 <= i < line.len() && spec_is_space_char(line[i]) {
        skip_space(line, i + 1)
    } else {
        i
    }
}

/// `tracefs`
pub open spec fn tracefs_name() -> Seq<u8> {
    seq![116u8, 114, 97, 99, 101, 102, 115]
}

/// `debugfs`
pub open spec fn debugfs_name() -> Seq<u8> {
    seq![100u8, 101, 98, 117, 103, 102, 115]
}

/// `/user_events_data`
pub open spec fn tracefs_suffix() -> Seq<u8> {
    seq![47u8, 117, 115, 101, 114, 95, 101, 118, 101, 110, 116, 115, 95, 100, 97, 116, 97]
}

/// `/tracing/user_events_data`
pub open spec fn debugfs_suffix() -> Seq<u8> {
    seq![47u8, 116, 114, 97, 99, 105, 110, 103] + tracefs_suffix()
}

/// The path of the control file that a line of the mount table gives, if
/// it gives one. A line reads `device mount_point file_system ...`, its
/// fields separated by blanks and tabs. For the file system `tracefs` the
/// control file is `user_events_data` under the mount point; for `debugfs`
/// it is `tracing/user_events_data` under it. Lines whose file system is
/// not followed by a separator, and paths that would not fit the line
/// buffer with their terminator, give nothing.
pub open spec fn control_file_of_line(line: Seq<u8>) -> Option<Seq<u8>> {
    let mount_begin = skip_space(line, skip_nonspace(line, 0));
    let mount_end = skip_nonspace(line, mount_begin);
    let fs_begin = skip_space(line, mount_end);
    let fs_end = skip_nonspace(line, fs_begin);
    let mount = line.subrange(mount_begin, mount_end);
    let fs = line.subrange(fs_begin, fs_end);
    if !spec_is_space_char(byte_at(line, fs_end)) {
        None
    } else if fs == tracefs_name() {
        if mount.len() + 18 > MOUNT_LINE_MAX {
            None
        } else {
            Some(mount + tracefs_suffix())
        }
    } else if fs == debugfs_name() {
        if mount.len() + 26 > MOUNT_LINE_MAX {
            None
        } else {
            Some(mount + debugfs_suffix())
        }
    } else {
        None
    }
}

/// The path that the first line with a control file gives, looking at
/// `lines[from..]`.
pub open spec fn control_file_of_lines(lines: Seq<Vec<u8>>, from: int) -> Option<Seq<u8>>
    decreases lines.len() - from,
{
    if from < 0 || from >= lines.len() {
        None
    } else if control_file_of_line(lines[from]@) is Some {
        control_file_of_line(lines[from]@)
    } else {
        control_file_of_lines(lines, from + 1)
    }
}

/// What a slot holds after a row of offers, made one after the other to a
/// slot that holds `current`.
pub open spec fn settled_all(current: i32, offers: Seq<i32>) -> i32
    decreases offers.len(),
{
    if offers.len() == 0 {
        current
    } else {
        UserEventsDataFile::settled(settled_all(current, offers.drop_last()), offers.last())
    }
}

/// A handle wins over an error in whatever order they arrive. Once a
/// handle has been offered, the slot holds a handle: an error that came
/// earlier does not stay in its way. And what the slot holds then, it holds
/// for good: nothing that is offered later displaces it.
pub proof fn lemma_handle_wins(current: i32, offers: Seq<i32>, at: int)
    requires
        0 <= at < offers.len(),
        offers[at] >= 0,
    ensures
        settled_all(current, offers) >= 0,
        settled_all(current, offers) == settled_all(current, offers.take(at + 1)),
    decreases offers.len(),
{
    if at == offers.len() - 1 {
        assert(offers.take(at + 1) =~= offers);
    } else {
        let front = offers.drop_last();
        assert(front[at] == offers[at]);
        lemma_handle_wins(current, front, at);
        assert(front.take(at + 1) =~= offers.take(at + 1));
    }
}

/// As long as no handle is offered, the first error that the slot took
/// stays: an error never displaces an error.
pub proof fn lemma_first_error_stays(current: i32, offers: Seq<i32>)
    requires
        current != EAGAIN_ERROR,
        forall|i: int| 0 <= i < offers.len() ==> #[trigger] offers[i] < 0,
    ensures
        settled_all(current, offers) == current,
    decreases offers.len(),
{
    if offers.len() > 0 {
        assert forall|i: int| 0 <= i < offers.drop_last().len() implies (
        #[trigger] offers.drop_last()[i]) < 0 by {
            assert(offers.drop_last()[i] == offers[i]);
        }
        lemma_first_error_stays(current, offers.drop_last());
        assert(offers[offers.len() - 1] < 0);
    }
}

/// The handle of the control file, or the error that stood in its way.
/// A negative value is an error code, negated; a value of 0 or more is a
/// file descriptor.
#[derive(Debug)]
pub struct UserEventsDataFile {
    file_or_error: i32,
}

impl UserEventsDataFile {
    /// The value in the slot.
    pub closed spec fn spec_value(&self) -> i32 {
        self.file_or_error
    }

    /// True for a blank or a tab.
    pub fn is_space_char(ch: u8) -> (space: bool)
        ensures
            space == spec_is_space_char(ch),
    {
        ch == 32 || ch == 9
    }

    /// True for anything but a separator and the terminator.
    pub fn is_nonspace_char(ch: u8) -> (nonspace: bool)
        ensures
            nonspace == spec_is_nonspace_char(ch),
    {
        ch != 0 && !Self::is_space_char(ch)
    }

    /// An empty slot.
    pub fn new() -> (file: Self)
        ensures
            file.spec_value() == EAGAIN_ERROR,
    {
        Self { file_or_error: EAGAIN_ERROR }
    }

    /// The value in the slot.
    pub fn peek(&self) -> (value: i32)
        ensures
            value == self.spec_value(),
    {
        self.file_or_error
    }

    /// The value in the slot, unless the slot is empty. For an empty slot
    /// the caller tries to open the control file and hands the result to
    /// `update`.
    pub fn get(&self) -> (value: Option<i32>)
        ensures
            value == (if self.spec_value() == EAGAIN_ERROR {
                None::<i32>
            } else {
                Some(self.spec_value())
            }),
    {
        if self.file_or_error == EAGAIN_ERROR {
            None
        } else {
            Some(self.file_or_error)
        }
    }

    /// What the slot holds after an offer of `new` to a slot that holds
    /// `current`. An empty slot takes what is offered. A handle in the
    /// slot stays. An error in the slot gives way to a handle and stays
    /// against another error.
    pub open spec fn settled(current: i32, new: i32) -> i32 {
        if current == EAGAIN_ERROR {
            new
        } else if current >= 0 || new < 0 {
            current
        } else {
            new
        }
    }

    /// The redundant handle that is to be closed after an offer of `new`
    /// to a slot that holds `current`: the offered one, when it is a handle
    /// and the slot keeps another.
    pub open spec fn redundant(current: i32, new: i32) -> Option<i32> {
        if current != EAGAIN_ERROR && current >= 0 && new >= 0 {
            Some(new)
        } else {
            None
        }
    }

    /// Offers the result of an attempt to open the control file: a file
    /// descriptor, or a negated error code. Returns what the slot holds
    /// afterwards, and the handle that the caller is to close, if the offer
    /// was a handle and lost.
    pub fn update(&mut self, new_file_or_error: i32) -> (result: (i32, Option<i32>))
        ensures
            final(self).spec_value() == Self::settled(old(self).spec_value(), new_file_or_error),
            result.0 == final(self).spec_value(),
            result.1 == Self::redundant(old(self).spec_value(), new_file_or_error),
    {
        let current = self.file_or_error;
        if current == EAGAIN_ERROR {
            self.file_or_error = new_file_or_error;
            (new_file_or_error, None)
        } else if current >= 0 || new_file_or_error < 0 {
            if new_file_or_error >= 0 {
                (current, Some(new_file_or_error))
            } else {
                (current, None)
            }
        } else {
            self.file_or_error = new_file_or_error;
            (new_file_or_error, None)
        }
    }

    /// Empties the slot. Returns the handle that the caller is to close, if
    /// the slot held one.
    pub fn close(&mut self) -> (handle: Option<i32>)
        ensures
            final(self).spec_value() == EAGAIN_ERROR,
            handle == (if old(self).spec_value() >= 0 {
                Some(old(self).spec_value())
            } else {
                None::<i32>
            }),
    {
        let file_or_error = self.file_or_error;
        self.file_or_error = EAGAIN_ERROR;
        if file_or_error >= 0 {
            Some(file_or_error)
        } else {
            None
        }
    }

    /// The path of the control file that a line of the mount table gives.
    pub fn control_file_from_line(line: &[u8]) -> (path: Option<Vec<u8>>)
        ensures
            match path {
                Some(p) => control_file_of_line(line@) == Some(p@),
                None => control_file_of_line(line@) is None,
            },
    {
        let mut line_pos = scan_nonspace(line, 0);
        line_pos = scan_space(line, line_pos);
        let mount_begin = line_pos;
        line_pos = scan_nonspace(line, line_pos);
        let mount_end = line_pos;
        line_pos = scan_space(line, line_pos);
        let fs_begin = line_pos;
        line_pos = scan_nonspace(line, line_pos);
        let fs_end = line_pos;

        if fs_end >= line.len() || !Self::is_space_char(line[fs_end]) {
            return None;
        }
        let tracefs: [u8; 7] = [116, 114, 97, 99, 101, 102, 115];
        let debugfs: [u8; 7] = [100, 101, 98, 117, 103, 102, 115];
        let tracefs_tail: [u8; 17] = [
            47, 117, 115, 101, 114, 95, 101, 118, 101, 110, 116, 115, 95, 100, 97, 116, 97,
        ];
        let debugfs_head: [u8; 8] = [47, 116, 114, 97, 99, 105, 110, 103];
        assert(tracefs@ =~= tracefs_name());
        assert(debugfs@ =~= debugfs_name());
        assert(tracefs_tail@ =~= tracefs_suffix());

        let mount_len = mount_end - mount_begin;
        let mut path: Vec<u8> = Vec::new();
        if field_is(line, fs_begin, fs_end, tracefs.as_slice()) {
            if mount_len > MOUNT_LINE_MAX - 18 {
                return None;
            }
            append_range(&mut path, line, mount_begin, mount_end);
            append_range(&mut path, tracefs_tail.as_slice(), 0, 17);
            assert(path@ =~= line@.subrange(mount_begin as int, mount_end as int)
                + tracefs_suffix());
            Some(path)
        } else if field_is(line, fs_begin, fs_end, debugfs.as_slice()) {
            if mount_len > MOUNT_LINE_MAX - 26 {
                return None;
            }
            append_range(&mut path, line, mount_begin, mount_end);
            append_range(&mut path, debugfs_head.as_slice(), 0, 8);
            append_range(&mut path, tracefs_tail.as_slice(), 0, 17);
            assert(path@ =~= line@.subrange(mount_begin as int, mount_end as int)
                + debugfs_suffix());
            Some(path)
        } else {
            None
        }
    }

    /// The path of the control file that a mount table gives: that of its
    /// first line that gives one.
    pub fn control_file_from_lines(lines: &Vec<Vec<u8>>) -> (path: Option<Vec<u8>>)
        ensures
            match path {
                Some(p) => control_file_of_lines(lines@, 0) == Some(p@),
                None => control_file_of_lines(lines@, 0) is None,
            },
    {
        let mut i: usize = 0;
        while i < lines.len()
            invariant
                i <= lines@.len(),
                control_file_of_lines(lines@, 0) == control_file_of_lines(lines@, i as int),
            decreases lines@.len() - i,
        {
            let found = Self::control_file_from_line(lines[i].as_slice());
            if found.is_some() {
                return found;
            }
            i += 1;
        }
        None
    }
}

/// Steps over field characters from `from`.
fn scan_nonspace(line: &[u8], from: usize) -> (end: usize)
    requires
        from <= line@.len(),
    ensures
        end == skip_nonspace(line@, from as int),
        from <= end <= line@.len(),
{
    let mut pos = from;
    while pos < line.len() && UserEventsDataFile::is_nonspace_char(line[pos])
        invariant
            from <= pos <= line@.len(),
            skip_nonspace(line@, from as int) == skip_nonspace(line@, pos as int),
        decreases line@.len() - pos,
    {
        pos += 1;
    }
    pos
}

/// Steps over separators from `from`.
fn scan_space(line: &[u8], from: usize) -> (end: usize)
    requires
        from <= line@.len(),
    ensures
        end == skip_space(line@, from as int),
        from <= end <= line@.len(),
{
    let mut pos = from;
    while pos < line.len() && UserEventsDataFile::is_space_char(line[pos])
        invariant
            from <= pos <= line@.len(),
            skip_space(line@, from as int) == skip_space(line@, pos as int),
        decreases line@.len() - pos,
    {
        pos += 1;
    }
    pos
}

/// True if `line[begin..end]` is `word`.
fn field_is(line: &[u8], begin: usize, end: usize, word: &[u8]) -> (same: bool)
    requires
        begin <= end <= line@.len(),
    ensures
        same == (line@.subrange(begin as int, end as int) == word@),
{
    if end - begin != word.len() {
        return false;
    }
    let ghost field = line@.subrange(begin as int, end as int);
    let mut i: usize = 0;
    while i < word.len()
        invariant
            i <= word@.len(),
            begin + word@.len() == end,
            end <= line@.len(),
            field == line@.subrange(begin as int, end as int),
            forall|j: int| 0 <= j < i ==> field[j] == word@[j],
        decreases word@.len() - i,
    {
        if line[begin + i] != word[i] {
            assert(field[i as int] != word@[i as int]);
            return false;
        }
        i += 1;
    }
    assert(field =~= word@);
    true
}

/// Appends `source[begin..end]` to `buf`.
fn append_range(buf: &mut Vec<u8>, source: &[u8], begin: usize, end: usize)
    requires
        begin <= end <= source@.len(),
    ensures
        final(buf)@ == old(buf)@ + source@.subrange(begin as int, end as int),
{
    let mut i: usize = begin;
    while i < end
        invariant
            begin <= i <= end <= source@.len(),
            buf@ == old(buf)@ + source@.subrange(begin as int, i as int),
        decreases end - i,
    {
        buf.push(source[i]);
        assert(source@.subrange(begin as int, i as int).push(source@[i as int])
            =~= source@.subrange(begin as int, i + 1));
        i += 1;
    }
}

} // verus!
