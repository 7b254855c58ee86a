//! The small animations of the interface: text that types itself, and a
//! spinner.

use vstd::prelude::*;
use vstd::string::*;

verus! {

broadcast use vstd::string::group_string_axioms;

/// A text that appears one character at a time, with a blinking cursor
/// behind it.
#[derive(Debug, Clone)]
pub struct TypeWriter {
    pub full_text: String,
    pub visible_chars: usize,
    pub cursor_visible: bool,
    pub complete: bool,
}

/// A typewriter as a value of the specification.
pub struct TypeWriterView {
    pub full_text: Seq<char>,
    pub visible_chars: usize,
    pub cursor_visible: bool,
    pub complete: bool,
}

impl View for TypeWriter {
    type V = TypeWriterView;

    open spec fn view(&self) -> TypeWriterView {
        TypeWriterView {
            full_text: self.full_text@,
            visible_chars: self.visible_chars,
            cursor_visible: self.cursor_visible,
            complete: self.complete,
        }
    }
}

impl TypeWriterView {
    /// A typewriter that has shown nothing of its text yet.
    pub open spec fn fresh(text: Seq<char>) -> TypeWriterView {
        TypeWriterView { full_text: text, visible_chars: 0, cursor_visible: true, complete: false }
    }

    /// The typewriter one tick later: one more character is shown, or,
    /// where all are, the text is complete. The cursor blinks.
    pub open spec fn ticked(self) -> TypeWriterView {
        if self.visible_chars < self.full_text.len() {
            TypeWriterView {
                visible_chars: (self.visible_chars + 1) as usize,
                cursor_visible: !self.cursor_visible,
                ..self
            }
        } else {
            TypeWriterView { complete: true, cursor_visible: !self.cursor_visible, ..self }
        }
    }

    /// The typewriter with its whole text shown.
    pub open spec fn skipped(self) -> TypeWriterView {
        TypeWriterView { visible_chars: self.full_text.len() as usize, complete: true, ..self }
    }

    /// What is shown of the text: its first characters, as many as are
    /// visible.
    pub open spec fn visible_text(self) -> Seq<char> {
        if self.visible_chars <= self.full_text.len() {
            self.full_text.take(self.visible_chars as int)
        } else {
            self.full_text
        }
    }

    /// The cursor as it is to be drawn: a block while the text is being
    /// typed, a line once it is complete, and a blank while it is off.
    pub open spec fn cursor(self) -> Seq<char> {
        if self.cursor_visible && !self.complete {
            "█"@
        } else if self.cursor_visible {
            "_"@
        } else {
            " "@
        }
    }
}

impl TypeWriter {
    /// A typewriter that has shown nothing of its text yet.
    pub fn new(text: &str) -> (r: Self)
        ensures
            r@ == TypeWriterView::fresh(text@),
    {
        Self {
            full_text: String::from_str(text),
            visible_chars: 0,
            cursor_visible: true,
            complete: false,
        }
    }

    pub fn tick(&mut self)
        ensures
            final(self)@ == old(self)@.ticked(),
    {
        if self.visible_chars < self.full_text.as_str().unicode_len() {
            self.visible_chars += 1;
        } else {
            self.complete = true;
        }
        self.cursor_visible = !self.cursor_visible;
    }

    pub fn visible_text(&self) -> (r: &str)
        ensures
            r@ == self@.visible_text(),
    {
        let len = self.full_text.as_str().unicode_len();
        let end = if self.visible_chars < len {
            self.visible_chars
        } else {
            len
        };
        let r = self.full_text.as_str().substring_char(0, end);
        assert(self.full_text@.subrange(0, end as int) =~= self@.visible_text());
        r
    }

    pub fn cursor(&self) -> (r: &'static str)
        ensures
            r@ == self@.cursor(),
    {
        if self.cursor_visible && !self.complete {
            "█"
        } else if self.cursor_visible {
            "_"
        } else {
            " "
        }
    }

    /// Shows the whole text at once.
    pub fn skip(&mut self)
        ensures
            final(self)@ == old(self)@.skipped(),
    {
        self.visible_chars = self.full_text.as_str().unicode_len();
        self.complete = true;
    }
}

/// The frames of the spinner that is drawn with braille dots.
pub open spec fn braille_frames() -> Seq<Seq<char>> {
    seq!["⣾"@, "⣽"@, "⣻"@, "⢿"@, "⡿"@, "⣟"@, "⣯"@, "⣷"@]
}

/// The frames of the spinner that is drawn with braille dots.
pub fn spinner_braille() -> (r: &'static [&'static str])
    ensures
        r@.len() == braille_frames().len(),
        forall|i: int| 0 <= i < r@.len() ==> (#[trigger] r@[i])@ == braille_frames()[i],
{
    let r: &'static [&'static str] = &["⣾", "⣽", "⣻", "⢿", "⡿", "⣟", "⣯", "⣷"];
    r
}

/// An animation that goes round through its frames.
#[derive(Debug, Clone, Copy)]
pub struct Spinner {
    frames: &'static [&'static str],
    current: usize,
}

impl Spinner {
    /// The spinner has frames, and shows one of them.
    pub closed spec fn wf(&self) -> bool {
        self.current < self.frames@.len()
    }

    /// The frames, each as its characters.
    pub closed spec fn frames(&self) -> Seq<Seq<char>> {
        self.frames@.map_values(|f: &'static str| f@)
    }

    /// The position of the frame that is shown.
    pub closed spec fn position(&self) -> int {
        self.current as int
    }

    /// The braille spinner, at its first frame.
    pub fn braille() -> (r: Self)
        ensures
            r.wf(),
            r.frames() == braille_frames(),
            r.position() == 0,
    {
        let r = Self { frames: spinner_braille(), current: 0 };
        assert(r.frames() =~= braille_frames());
        r
    }

    /// Goes on to the next frame, and from the last to the first.
    pub fn tick(&mut self)
        requires
            old(self).wf(),
        ensures
            final(self).wf(),
            final(self).frames() == old(self).frames(),
            final(self).position() == (old(self).position() + 1) % (old(self).frames().len() as int),
    {
        let n = self.frames.len();
        assert(self.current < n);
        self.current = (self.current + 1) % n;
    }

    /// The frame that is shown.
    pub fn current(&self) -> (r: &'static str)
        requires
            self.wf(),
        ensures
            r@ == self.frames()[self.position()],
    {
        self.frames[self.current]
    }
}

/// The characters that the rain is made of.
pub open spec fn rain_chars() -> Seq<char> {
    seq![
        'ア', 'イ', 'ウ', 'エ', 'オ', 'カ', 'キ', 'ク', 'ケ', 'コ', 'サ', 'シ', 'ス', 'セ', 'ソ', 'タ',
        'チ', 'ツ', 'テ', 'ト', '0', '1', '2', '3', '4', '5', '6', '7', '8', '9', '@', '#', '$', '%',
        '&', '*', '+', '=', '<', '>',
    ]
}

/// The characters that the rain is made of.
pub fn matrix_chars() -> (r: &'static [char])
    ensures
        r@ == rain_chars(),
{
    let r: &'static [char] = &[
        'ア', 'イ', 'ウ', 'エ', 'オ', 'カ', 'キ', 'ク', 'ケ', 'コ', 'サ', 'シ', 'ス', 'セ', 'ソ', 'タ',
        'チ', 'ツ', 'テ', 'ト', '0', '1', '2', '3', '4', '5', '6', '7', '8', '9', '@', '#', '$', '%',
        '&', '*', '+', '=', '<', '>',
    ];
    assert(r@ =~= rain_chars());
    r
}

/// `Rng::gen_range` of the crate `rand`, on the generator of the thread:
/// a whole number drawn at random from `low` up to, and without, `high`.
/// Which number comes is left to chance; it lies in that range.
#[verifier::external_body]
fn random_between(low: i64, high: i64) -> (r: i64)
    requires
        low < high,
    ensures
        low <= r < high,
{
    rand::Rng::gen_range(&mut rand::thread_rng(), low..high)
}

/// `Rng::gen_ratio` of the crate `rand`, on the generator of the thread:
/// yes with a chance of `numerator` in `denominator`. Nothing is claimed
/// of the answer.
#[verifier::external_body]
fn random_chance(numerator: u32, denominator: u32) -> (r: bool)
    requires
        denominator > 0,
        numerator <= denominator,
{
    rand::Rng::gen_ratio(&mut rand::thread_rng(), numerator, denominator)
}

/// One column of the rain: the characters it shows, where its head is,
/// how fast it falls and how long its tail is.
#[derive(Debug, Clone)]
pub struct MatrixColumn {
    chars: Vec<char>,
    head: i32,
    speed: u8,
    length: u8,
}

/// A column as a value of the specification.
pub struct ColumnView {
    /// The characters of the column, one for each row
    pub chars: Seq<char>,
    /// The row of the head; it is above the screen while it is negative
    pub head: int,
    /// The rows that the column falls in one tick
    pub speed: int,
    /// The length of the tail
    pub length: int,
}

impl View for MatrixColumn {
    type V = ColumnView;

    closed spec fn view(&self) -> ColumnView {
        ColumnView {
            chars: self.chars@,
            head: self.head as int,
            speed: self.speed as int,
            length: self.length as int,
        }
    }
}

impl ColumnView {
    /// The column fits a rain of the given height: it has a character of
    /// the rain for each row, falls by one to three rows a tick, has a tail
    /// of five to fourteen rows, and its head is above the screen by no
    /// more than the screen's height, or below it by no more than its tail
    /// and one step.
    pub open spec fn fits(self, height: u16) -> bool {
        &&& self.chars.len() == height
        &&& forall|i: int| 0 <= i < self.chars.len() ==> rain_chars().contains(#[trigger] self.chars[i])
        &&& 1 <= self.speed < 4
        &&& 5 <= self.length < 15
        &&& -(height as int) <= self.head <= height + self.length + self.speed
    }

    /// The tail has left the screen once the column falls again.
    pub open spec fn leaves(self, height: u16) -> bool {
        self.head + self.speed > height + self.length
    }

    /// The column after it fell by its speed.
    pub open spec fn fallen(self) -> ColumnView {
        ColumnView { head: self.head + self.speed, ..self }
    }

    /// Whether `after` is what a tick can make of this column. The column
    /// has fallen by its speed; or, where that took its tail off the
    /// screen, it begins again above the screen, higher than its old tail
    /// is long, with a new speed and a new length. After that, at most one
    /// of its characters has changed, to a character of the rain.
    pub open spec fn ticks_to(self, after: ColumnView, height: u16) -> bool {
        &&& after.fits(height)
        &&& if self.leaves(height) {
            -(height as int) <= after.head < -self.length
        } else {
            after.head == self.head + self.speed && after.speed == self.speed && after.length
                == self.length
        }
        &&& (after.chars == self.chars || exists|at: int, c: char|
            0 <= at < self.chars.len() && rain_chars().contains(c) && after.chars
                == #[trigger] self.chars.update(at, c))
    }
}

impl MatrixColumn {
    /// The characters of the column, one for each row.
    pub fn chars(&self) -> (r: &Vec<char>)
        ensures
            r@ == self@.chars,
    {
        &self.chars
    }

    /// The row of the head; it is above the screen while it is negative.
    pub fn head(&self) -> (r: i32)
        ensures
            r == self@.head,
    {
        self.head
    }

    /// The length of the tail.
    pub fn length(&self) -> (r: u8)
        ensures
            r == self@.length,
    {
        self.length
    }

    fn copy(&self) -> (r: MatrixColumn)
        ensures
            r@ == self@,
    {
        let mut chars: Vec<char> = Vec::new();
        let mut i: usize = 0;
        while i < self.chars.len()
            invariant
                i <= self.chars.len(),
                chars@ == self.chars@.take(i as int),
            decreases self.chars.len() - i,
        {
            chars.push(self.chars[i]);
            i += 1;
            assert(self.chars@.take(i as int) =~= self.chars@.take(i as int - 1).push(
                self.chars@[i as int - 1],
            ));
        }
        assert(self.chars@.take(self.chars.len() as int) =~= self.chars@);
        MatrixColumn { chars, head: self.head, speed: self.speed, length: self.length }
    }

    /// The column one tick later, for a rain of the given height.
    fn tick(&mut self, height: u16)
        requires
            old(self)@.fits(height),
            height >= 15,
        ensures
            old(self)@.ticks_to(final(self)@, height),
    {
        if self.head + self.speed as i32 > height as i32 + self.length as i32 {
            self.head = random_between(-(height as i64), -(self.length as i64)) as i32;
            self.speed = random_between(1, 4) as u8;
            self.length = random_between(5, 15) as u8;
        } else {
            self.head = self.head + self.speed as i32;
        }
        let ghost chars = self.chars@;
        if random_chance(1, 10) {
            let at = random_between(0, self.chars.len() as i64) as usize;
            let c = random_char();
            self.chars.set(at, c);
            assert(self.chars@ == chars.update(at as int, c));
        }
    }
}

/// Columns of characters that fall down the screen.
#[derive(Debug, Clone)]
pub struct MatrixRain {
    columns: Vec<MatrixColumn>,
    height: u16,
}

fn random_char() -> (c: char)
    ensures
        rain_chars().contains(c),
{
    let all = matrix_chars();
    let i = random_between(0, all.len() as i64);
    all[i as usize]
}

/// The columns as values of the specification.
pub open spec fn column_views(columns: Seq<MatrixColumn>) -> Seq<ColumnView> {
    columns.map_values(|c: MatrixColumn| c@)
}

impl MatrixRain {
    /// The columns, from left to right.
    pub closed spec fn spec_columns(&self) -> Seq<ColumnView> {
        column_views(self.columns@)
    }

    /// The number of rows.
    pub closed spec fn spec_height(&self) -> u16 {
        self.height
    }

    /// Every column fits the height of the rain.
    pub open spec fn wf(&self) -> bool {
        forall|i: int|
            0 <= i < self.spec_columns().len() ==> (#[trigger] self.spec_columns()[i]).fits(
                self.spec_height(),
            )
    }

    /// A rain of the given size, begun at random: every column fits the
    /// height, and every head is above the screen.
    pub fn new(width: u16, height: u16) -> (r: Self)
        requires
            height > 0,
        ensures
            r.wf(),
            r.spec_columns().len() == width,
            r.spec_height() == height,
            forall|i: int| 0 <= i < width ==> (#[trigger] r.spec_columns()[i]).head < 0,
    {
        let mut columns: Vec<MatrixColumn> = Vec::new();
        let mut x: u16 = 0;
        while x < width
            invariant
                x <= width,
                height > 0,
                columns@.len() == x,
                forall|i: int|
                    0 <= i < columns@.len() ==> (#[trigger] columns@[i])@.fits(height)
                        && columns@[i]@.head < 0,
            decreases width - x,
        {
            let mut chars: Vec<char> = Vec::new();
            let mut y: u16 = 0;
            while y < height
                invariant
                    y <= height,
                    chars@.len() == y,
                    forall|i: int| 0 <= i < chars@.len() ==> rain_chars().contains(#[trigger] chars@[i]),
                decreases height - y,
            {
                chars.push(random_char());
                y += 1;
            }
            let column = MatrixColumn {
                chars,
                head: random_between(-(height as i64), 0) as i32,
                speed: random_between(1, 4) as u8,
                length: random_between(5, 15) as u8,
            };
            columns.push(column);
            x += 1;
        }
        let r = Self { columns, height };
        assert(r.spec_columns().len() == width);
        assert forall|i: int| 0 <= i < width implies (#[trigger] r.spec_columns()[i]).fits(height)
            && r.spec_columns()[i].head < 0 by {
            assert(r.spec_columns()[i] == r.columns@[i]@);
        }
        r
    }

    /// The number of rows.
    pub fn height(&self) -> (r: u16)
        ensures
            r == self.spec_height(),
    {
        self.height
    }

    /// The columns, from left to right.
    pub fn columns(&self) -> (r: &Vec<MatrixColumn>)
        ensures
            column_views(r@) == self.spec_columns(),
    {
        &self.columns
    }

    /// The rain one tick later. Every column falls by its speed; one whose
    /// tail has left the screen begins again above it, at random; and now
    /// and then a character changes.
    pub fn tick(&mut self)
        requires
            old(self).wf(),
            old(self).spec_height() >= 15,
        ensures
            final(self).wf(),
            final(self).spec_height() == old(self).spec_height(),
            final(self).spec_columns().len() == old(self).spec_columns().len(),
            forall|i: int|
                0 <= i < old(self).spec_columns().len() ==> (#[trigger] old(
                    self,
                ).spec_columns()[i]).ticks_to(final(self).spec_columns()[i], old(self).spec_height()),
    {
        let height = self.height;
        let mut i: usize = 0;
        assert forall|k: int| 0 <= k < self.columns@.len() implies (#[trigger] self.columns@[k])@.fits(
            height,
        ) by {
            assert(self.spec_columns()[k] == self.columns@[k]@);
        }
        while i < self.columns.len()
            invariant
                i <= self.columns@.len(),
                self.height == height,
                height >= 15,
                self.columns@.len() == old(self).columns@.len(),
                forall|k: int|
                    0 <= k < i ==> (#[trigger] old(self).columns@[k])@.ticks_to(
                        self.columns@[k]@,
                        height,
                    ),
                forall|k: int|
                    i <= k < self.columns@.len() ==> #[trigger] self.columns@[k] == old(
                        self,
                    ).columns@[k],
                forall|k: int|
                    0 <= k < old(self).columns@.len() ==> (#[trigger] old(self).columns@[k])@.fits(
                        height,
                    ),
            decreases self.columns@.len() - i,
        {
            let mut column = self.columns[i].copy();
            column.tick(height);
            self.columns.set(i, column);
            i += 1;
        }
        assert forall|k: int| 0 <= k < old(self).spec_columns().len() implies (#[trigger] old(
            self,
        ).spec_columns()[k]).ticks_to(self.spec_columns()[k], height) by {
            assert(old(self).spec_columns()[k] == old(self).columns@[k]@);
            assert(self.spec_columns()[k] == self.columns@[k]@);
        }
        assert forall|k: int| 0 <= k < self.spec_columns().len() implies (#[trigger] self.spec_columns()[k])
            .fits(height) by {
            assert(self.spec_columns()[k] == self.columns@[k]@);
            assert(old(self).columns@[k]@.ticks_to(self.columns@[k]@, height));
        }
    }
}

} // verus!
