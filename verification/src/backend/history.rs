use crate::backend::fetch::ErrorKind;
use crate::text::views;
use vstd::prelude::*;

verus! {

/// One record of reading progress: a chapter of a manga that was opened.
#[derive(Clone, Copy, Debug)]
pub struct MangaReadingHistorySave<'a> {
    pub id: &'a str,
    pub title: &'a str,
    pub chapter_id: &'a str,
    pub chapter_title: &'a str,
}

/// The mathematical value of a `MangaReadingHistorySave`.
pub struct SaveView {
    pub id: Seq<char>,
    pub title: Seq<char>,
    pub chapter_id: Seq<char>,
    pub chapter_title: Seq<char>,
}

impl<'a> View for MangaReadingHistorySave<'a> {
    type V = SaveView;

    open spec fn view(&self) -> SaveView {
        SaveView {
            id: self.id@,
            title: self.title@,
            chapter_id: self.chapter_id@,
            chapter_title: self.chapter_title@,
        }
    }
}

/// A row of the table of mangas.
pub struct Manga {
    id: String,
    title: String,
}

/// The mathematical value of a `Manga`.
pub struct MangaView {
    pub id: Seq<char>,
    pub title: Seq<char>,
}

impl View for Manga {
    type V = MangaView;

    closed spec fn view(&self) -> MangaView {
        MangaView { id: self.id@, title: self.title@ }
    }
}

impl Manga {
    /// The identifier of the manga.
    pub fn id(&self) -> (id: &str)
        ensures
            id@ == self@.id,
    {
        self.id.as_str()
    }

    /// The title of the manga.
    pub fn title(&self) -> (title: &str)
        ensures
            title@ == self@.title,
    {
        self.title.as_str()
    }
}

/// A row of the table of chapters.
pub struct Chapter {
    id: String,
    title: String,
    manga_id: String,
}

/// The mathematical value of a `Chapter`.
pub struct ChapterView {
    pub id: Seq<char>,
    pub title: Seq<char>,
    pub manga_id: Seq<char>,
}

impl View for Chapter {
    type V = ChapterView;

    closed spec fn view(&self) -> ChapterView {
        ChapterView { id: self.id@, title: self.title@, manga_id: self.manga_id@ }
    }
}

impl Chapter {
    /// The identifier of the chapter.
    pub fn id(&self) -> (id: &str)
        ensures
            id@ == self@.id,
    {
        self.id.as_str()
    }

    /// The title of the chapter.
    pub fn title(&self) -> (title: &str)
        ensures
            title@ == self@.title,
    {
        self.title.as_str()
    }

    /// The identifier of the manga that the chapter belongs to.
    pub fn manga_id(&self) -> (manga_id: &str)
        ensures
            manga_id@ == self@.manga_id,
    {
        self.manga_id.as_str()
    }
}

/// The chapters of one manga that were read.
pub struct MangaReadingHistoryRetrieve<'a> {
    pub chapters_read: Vec<&'a str>,
}

/// Why a write to the history did not happen.
#[derive(Clone, Copy, Debug, PartialEq, Eq, Structural)]
pub enum DbError {
    /// The history is not available; nothing is kept.
    Unavailable,
    /// The row would break a rule of the tables: an identifier that is there already, or a
    /// chapter of a manga that is not there.
    Constraint,
}

impl DbError {
    /// The kind under which the failure is reported.
    pub fn kind(&self) -> (kind: ErrorKind)
        ensures
            kind == ErrorKind::PersistenceUnavailable,
    {
        ErrorKind::PersistenceUnavailable
    }
}

/// One write to the tables.
pub enum Statement {
    InsertManga { id: String, title: String },
    InsertChapter { id: String, title: String, manga_id: String },
}

/// The mathematical value of a `Statement`.
pub enum StatementView {
    InsertManga { id: Seq<char>, title: Seq<char> },
    InsertChapter { id: Seq<char>, title: Seq<char>, manga_id: Seq<char> },
}

impl View for Statement {
    type V = StatementView;

    open spec fn view(&self) -> StatementView {
        match self {
            Statement::InsertManga { id, title } => StatementView::InsertManga {
                id: id@,
                title: title@,
            },
            Statement::InsertChapter { id, title, manga_id } => StatementView::InsertChapter {
                id: id@,
                title: title@,
                manga_id: manga_id@,
            },
        }
    }
}

/// The writes that save `record`: the chapter and, before it, the manga where it is not
/// known yet.
pub open spec fn save_plan(manga_known: bool, record: SaveView) -> Seq<StatementView> {
    let chapter = StatementView::InsertChapter {
        id: record.chapter_id,
        title: record.chapter_title,
        manga_id: record.id,
    };
    if manga_known {
        seq![chapter]
    } else {
        seq![StatementView::InsertManga { id: record.id, title: record.title }, chapter]
    }
}

/// The identifiers of the chapters of the manga `id` among the first `upto` rows, in the
/// order of the rows.
pub open spec fn read_upto(chapters: Seq<ChapterView>, id: Seq<char>, upto: int) -> Seq<Seq<char>>
    decreases upto,
{
    if upto <= 0 {
        Seq::empty()
    } else {
        let before = read_upto(chapters, id, upto - 1);
        if upto <= chapters.len() && chapters[upto - 1].manga_id == id {
            before.push(chapters[upto - 1].id)
        } else {
            before
        }
    }
}

/// The mathematical value of a `History`: the two tables, in the order the rows were
/// written.
#[verifier::ext_equal]
pub struct HistoryView {
    pub available: bool,
    pub mangas: Seq<MangaView>,
    pub chapters: Seq<ChapterView>,
}

impl HistoryView {
    /// Whether the table of mangas has a row for `id`.
    pub open spec fn has_manga(self, id: Seq<char>) -> bool {
        exists|i: int| 0 <= i < self.mangas.len() && (#[trigger] self.mangas[i]).id == id
    }

    /// Whether the table of chapters has a row for `id`.
    pub open spec fn has_chapter(self, id: Seq<char>) -> bool {
        exists|i: int| 0 <= i < self.chapters.len() && (#[trigger] self.chapters[i]).id == id
    }

    /// The rules of the tables: no two mangas share an identifier, no two chapters do, and
    /// every chapter belongs to a manga of the table. A history that is not available keeps
    /// nothing.
    pub open spec fn wf(self) -> bool {
        &&& forall|i: int, j: int|
            0 <= i < j < self.mangas.len() ==> (#[trigger] self.mangas[i]).id != (
            #[trigger] self.mangas[j]).id
        &&& forall|i: int, j: int|
            0 <= i < j < self.chapters.len() ==> (#[trigger] self.chapters[i]).id != (
            #[trigger] self.chapters[j]).id
        &&& forall|i: int|
            0 <= i < self.chapters.len() ==> self.has_manga((#[trigger] self.chapters[i]).manga_id)
        &&& !self.available ==> self.mangas.len() == 0 && self.chapters.len() == 0
    }

    /// An available history with empty tables.
    pub open spec fn empty() -> Self {
        HistoryView { available: true, mangas: Seq::empty(), chapters: Seq::empty() }
    }

    /// A history that is not available.
    pub open spec fn unavailable() -> Self {
        HistoryView { available: false, mangas: Seq::empty(), chapters: Seq::empty() }
    }

    /// The tables and the outcome after one write. A write that fails changes nothing.
    pub open spec fn executed(self, statement: StatementView) -> (Self, Result<(), DbError>) {
        if !self.available {
            (self, Err(DbError::Unavailable))
        } else {
            match statement {
                StatementView::InsertManga { id, title } => if self.has_manga(id) {
                    (self, Err(DbError::Constraint))
                } else {
                    (
                        HistoryView { mangas: self.mangas.push(MangaView { id, title }), ..self },
                        Ok(()),
                    )
                },
                StatementView::InsertChapter { id, title, manga_id } => if self.has_chapter(id)
                    || !self.has_manga(manga_id) {
                    (self, Err(DbError::Constraint))
                } else {
                    (
                        HistoryView {
                            chapters: self.chapters.push(ChapterView { id, title, manga_id }),
                            ..self
                        },
                        Ok(()),
                    )
                },
            }
        }
    }

    /// The tables and the outcome after the writes of `plan`, one after the other, up to the
    /// first that fails.
    pub open spec fn ran(self, plan: Seq<StatementView>) -> (Self, Result<(), DbError>)
        decreases plan.len(),
    {
        if plan.len() == 0 {
            (self, Ok(()))
        } else {
            let (next, outcome) = self.executed(plan[0]);
            if outcome is Ok {
                next.ran(plan.drop_first())
            } else {
                (next, outcome)
            }
        }
    }

    /// The tables and the outcome after `record` is saved: the manga gets its row if it has
    /// none, and the chapter gets its row, which fails where the chapter has one already.
    pub open spec fn saved(self, record: SaveView) -> (Self, Result<(), DbError>) {
        self.ran(save_plan(self.has_manga(record.id), record))
    }

    /// The identifiers of the chapters of the manga `id` that were read, in the order they
    /// were saved.
    pub open spec fn read(self, id: Seq<char>) -> Seq<Seq<char>> {
        read_upto(self.chapters, id, self.chapters.len() as int)
    }
}

/// The reading history: which chapters of which mangas were opened.
pub struct History {
    available: bool,
    mangas: Vec<Manga>,
    chapters: Vec<Chapter>,
}

impl View for History {
    type V = HistoryView;

    closed spec fn view(&self) -> HistoryView {
        HistoryView {
            available: self.available,
            mangas: views(self.mangas@),
            chapters: views(self.chapters@),
        }
    }
}

/// The writes that save `manga_read`, given whether its manga is known already.
pub fn save_statements(manga_known: bool, manga_read: MangaReadingHistorySave<'_>) -> (plan: Vec<
    Statement,
>)
    ensures
        views(plan@) == save_plan(manga_known, manga_read@),
{
    let mut plan: Vec<Statement> = Vec::new();
    if !manga_known {
        plan.push(
            Statement::InsertManga {
                id: String::from_str(manga_read.id),
                title: String::from_str(manga_read.title),
            },
        );
    }
    plan.push(
        Statement::InsertChapter {
            id: String::from_str(manga_read.chapter_id),
            title: String::from_str(manga_read.chapter_title),
            manga_id: String::from_str(manga_read.id),
        },
    );
    assert(views(plan@) =~= save_plan(manga_known, manga_read@));
    plan
}

impl History {
    /// A history that is not available: it keeps nothing and every write to it fails.
    pub fn unavailable() -> (history: History)
        ensures
            history@ == HistoryView::unavailable(),
            history@.wf(),
    {
        let history = History { available: false, mangas: Vec::new(), chapters: Vec::new() };
        assert(history@ =~= HistoryView::unavailable());
        history
    }

    /// Whether the history keeps what is written to it.
    pub fn is_available(&self) -> (available: bool)
        ensures
            available == self@.available,
    {
        self.available
    }

    /// The rows of the table of mangas, in the order they were written.
    pub fn mangas(&self) -> (mangas: &Vec<Manga>)
        ensures
            views(mangas@) == self@.mangas,
    {
        &self.mangas
    }

    /// The rows of the table of chapters, in the order they were written.
    pub fn chapters(&self) -> (chapters: &Vec<Chapter>)
        ensures
            views(chapters@) == self@.chapters,
    {
        &self.chapters
    }

    /// Whether the table of mangas has a row for `id`.
    pub fn has_manga(&self, id: &str) -> (found: bool)
        ensures
            found == self@.has_manga(id@),
    {
        let wanted = String::from_str(id);
        let mut i: usize = 0;
        while i < self.mangas.len()
            invariant
                i <= self.mangas.len(),
                wanted@ == id@,
                forall|k: int| 0 <= k < i ==> (#[trigger] self@.mangas[k]).id != id@,
            decreases self.mangas.len() - i,
        {
            if self.mangas[i].id == wanted {
                assert(self@.mangas[i as int].id == id@);
                return true;
            }
            assert(self@.mangas[i as int] == self.mangas@[i as int]@);
            i = i + 1;
        }
        false
    }

    /// Whether the table of chapters has a row for `id`.
    pub fn has_chapter(&self, id: &str) -> (found: bool)
        ensures
            found == self@.has_chapter(id@),
    {
        let wanted = String::from_str(id);
        let mut i: usize = 0;
        while i < self.chapters.len()
            invariant
                i <= self.chapters.len(),
                wanted@ == id@,
                forall|k: int| 0 <= k < i ==> (#[trigger] self@.chapters[k]).id != id@,
            decreases self.chapters.len() - i,
        {
            if self.chapters[i].id == wanted {
                assert(self@.chapters[i as int].id == id@);
                return true;
            }
            assert(self@.chapters[i as int] == self.chapters@[i as int]@);
            i = i + 1;
        }
        false
    }

    /// Carries out one write. A write that fails changes nothing.
    pub fn execute(&mut self, statement: Statement) -> (outcome: Result<(), DbError>)
        ensures
            (final(self)@, outcome) == old(self)@.executed(statement@),
            old(self)@.wf() ==> final(self)@.wf(),
    {
        if !self.available {
            return Err(DbError::Unavailable);
        }
        match statement {
            Statement::InsertManga { id, title } => {
                if self.has_manga(id.as_str()) {
                    return Err(DbError::Constraint);
                }
                self.mangas.push(Manga { id, title });
                proof {
                    let row = MangaView { id: id@, title: title@ };
                    assert(self@.mangas =~= old(self)@.mangas.push(row));
                    assert(self@.chapters == old(self)@.chapters);
                    assert forall|i: int|
                        old(self)@.wf() && 0 <= i < self@.chapters.len() implies self@.has_manga(
                        (#[trigger] self@.chapters[i]).manga_id,
                    ) by {
                        let wanted = self@.chapters[i].manga_id;
                        assert(old(self)@.has_manga(old(self)@.chapters[i].manga_id));
                        let k = choose|k: int|
                            0 <= k < old(self)@.mangas.len() && (
                            #[trigger] old(self)@.mangas[k]).id == wanted;
                        assert(self@.mangas[k].id == wanted);
                    }
                }
                Ok(())
            },
            Statement::InsertChapter { id, title, manga_id } => {
                if self.has_chapter(id.as_str()) {
                    return Err(DbError::Constraint);
                }
                if !self.has_manga(manga_id.as_str()) {
                    return Err(DbError::Constraint);
                }
                self.chapters.push(Chapter { id, title, manga_id });
                proof {
                    let row = ChapterView { id: id@, title: title@, manga_id: manga_id@ };
                    assert(self@.chapters =~= old(self)@.chapters.push(row));
                    assert(self@.mangas == old(self)@.mangas);
                    assert forall|i: int|
                        old(self)@.wf() && 0 <= i < self@.chapters.len() implies self@.has_manga(
                        (#[trigger] self@.chapters[i]).manga_id,
                    ) by {
                        if i < old(self)@.chapters.len() {
                            assert(old(self)@.has_manga(old(self)@.chapters[i].manga_id));
                        }
                    }
                }
                Ok(())
            },
        }
    }
}

/// A history that is available and has nothing in it yet.
pub fn create_history() -> (history: History)
    ensures
        history@ == HistoryView::empty(),
        history@.wf(),
{
    let history = History { available: true, mangas: Vec::new(), chapters: Vec::new() };
    assert(history@ =~= HistoryView::empty());
    history
}

/// Saves one record of reading progress. If it is the first chapter read of its manga, the
/// manga is written first; the chapter is written in either case. A history that is not
/// available fails the write and stays as it is.
pub fn save_history(history: &mut History, manga_read: MangaReadingHistorySave<'_>) -> (outcome:
    Result<(), DbError>)
    ensures
        (final(history)@, outcome) == old(history)@.saved(manga_read@),
        old(history)@.wf() ==> final(history)@.wf(),
{
    let known = history.has_manga(manga_read.id);
    proof {
        reveal_with_fuel(HistoryView::ran, 3);
        let plan = save_plan(known, manga_read@);
        assert(plan.drop_first().len() == plan.len() - 1);
        if !known {
            assert(plan.drop_first()[0] == plan[1]);
            assert(plan.drop_first().drop_first().len() == 0);
        }
    }
    if !known {
        let written = history.execute(
            Statement::InsertManga {
                id: String::from_str(manga_read.id),
                title: String::from_str(manga_read.title),
            },
        );
        match written {
            Err(error) => {
                return Err(error);
            },
            Ok(()) => {},
        }
    }
    history.execute(
        Statement::InsertChapter {
            id: String::from_str(manga_read.chapter_id),
            title: String::from_str(manga_read.chapter_title),
            manga_id: String::from_str(manga_read.id),
        },
    )
}

/// The chapters of the manga `id` that were read, in the order they were saved. A history
/// that is not available has none.
pub fn get_manga_history<'a>(history: &'a History, id: &str) -> (found: MangaReadingHistoryRetrieve<
    'a,
>)
    ensures
        views(found.chapters_read@) == history@.read(id@),
{
    let wanted = String::from_str(id);
    let mut chapters_read: Vec<&'a str> = Vec::new();
    let mut i: usize = 0;
    while i < history.chapters.len()
        invariant
            i <= history.chapters.len(),
            wanted@ == id@,
            chapters_read@.len() == read_upto(history@.chapters, id@, i as int).len(),
            forall|k: int|
                0 <= k < chapters_read@.len() ==> (#[trigger] chapters_read@[k])@ == read_upto(
                    history@.chapters,
                    id@,
                    i as int,
                )[k],
        decreases history.chapters.len() - i,
    {
        let row = &history.chapters[i];
        assert(history@.chapters[i as int] == row@);
        if row.manga_id == wanted {
            chapters_read.push(row.id.as_str());
        }
        i = i + 1;
    }
    assert(views(chapters_read@) =~= history@.read(id@));
    MangaReadingHistoryRetrieve { chapters_read }
}

/// What saving a record comes to, without the plan: nothing on a history that is not
/// available; otherwise the manga gets its row if it has none, and the chapter gets its row
/// unless it has one.
pub proof fn lemma_saved(history: HistoryView, record: SaveView)
    requires
        history.wf(),
    ensures
        !history.available ==> history.saved(record) == (history, Err::<(), DbError>(
            DbError::Unavailable,
        )),
        history.available ==> history.saved(record).0.mangas == (if history.has_manga(
            record.id,
        ) {
            history.mangas
        } else {
            history.mangas.push(MangaView { id: record.id, title: record.title })
        }),
        history.available && history.has_chapter(record.chapter_id) ==> history.saved(
            record,
        ).0.chapters == history.chapters && history.saved(record).1 == Err::<(), DbError>(
            DbError::Constraint,
        ),
        history.available && !history.has_chapter(record.chapter_id) ==> history.saved(
            record,
        ).0.chapters == history.chapters.push(
            ChapterView {
                id: record.chapter_id,
                title: record.chapter_title,
                manga_id: record.id,
            },
        ) && history.saved(record).1 is Ok,
        history.saved(record).0.available == history.available,
{
    reveal_with_fuel(HistoryView::ran, 3);
    let known = history.has_manga(record.id);
    let plan = save_plan(known, record);
    assert(plan.drop_first().len() == plan.len() - 1);
    if history.available && !known {
        assert(plan.drop_first()[0] == plan[1]);
        assert(plan.drop_first().drop_first().len() == 0);
        let row = MangaView { id: record.id, title: record.title };
        let with_manga = HistoryView { mangas: history.mangas.push(row), ..history };
        assert(with_manga.mangas[history.mangas.len() as int].id == record.id);
        assert(with_manga.has_manga(record.id));
        assert(with_manga.has_chapter(record.chapter_id) == history.has_chapter(
            record.chapter_id,
        ));
    }
}

/// Saving keeps the rules of the tables: afterwards no manga and no chapter has two rows,
/// and every chapter belongs to a manga of the table.
pub proof fn lemma_saved_keeps_wf(history: HistoryView, record: SaveView)
    requires
        history.wf(),
    ensures
        history.saved(record).0.wf(),
{
    lemma_saved(history, record);
    let after = history.saved(record).0;
    if history.available {
        if !history.has_manga(record.id) {
            assert(after.mangas[history.mangas.len() as int].id == record.id);
        }
        assert(after.has_manga(record.id)) by {
            if history.has_manga(record.id) {
                let k = choose|k: int|
                    0 <= k < history.mangas.len() && (#[trigger] history.mangas[k]).id
                        == record.id;
                assert(after.mangas[k].id == record.id);
            }
        }
        assert forall|i: int| 0 <= i < after.chapters.len() implies after.has_manga(
            (#[trigger] after.chapters[i]).manga_id,
        ) by {
            if i < history.chapters.len() {
                let wanted = history.chapters[i].manga_id;
                assert(history.has_manga(wanted));
                let k = choose|k: int|
                    0 <= k < history.mangas.len() && (#[trigger] history.mangas[k]).id == wanted;
                assert(after.mangas[k].id == wanted);
            }
        }
    }
}

/// Two chapters of a manga that the history does not know yet come to one row for the
/// manga and one row for each chapter, both of which belong to the manga.
pub proof fn lemma_two_chapters_of_one_manga(history: HistoryView, first: SaveView, second: SaveView)
    requires
        history.wf(),
        history.available,
        first.id == second.id,
        first.chapter_id != second.chapter_id,
        !history.has_manga(first.id),
        !history.has_chapter(first.chapter_id),
        !history.has_chapter(second.chapter_id),
    ensures
        history.saved(first).1 is Ok,
        history.saved(first).0.saved(second).1 is Ok,
        history.saved(first).0.saved(second).0.mangas == history.mangas.push(
            MangaView { id: first.id, title: first.title },
        ),
        history.saved(first).0.saved(second).0.chapters == history.chapters.push(
            ChapterView {
                id: first.chapter_id,
                title: first.chapter_title,
                manga_id: first.id,
            },
        ).push(
            ChapterView {
                id: second.chapter_id,
                title: second.chapter_title,
                manga_id: first.id,
            },
        ),
        history.saved(first).0.saved(second).0.wf(),
{
    lemma_saved(history, first);
    lemma_saved_keeps_wf(history, first);
    let middle = history.saved(first).0;
    assert(middle.mangas[history.mangas.len() as int].id == first.id);
    assert(middle.has_manga(second.id));
    assert(!middle.has_chapter(second.chapter_id)) by {
        if middle.has_chapter(second.chapter_id) {
            let k = choose|k: int|
                0 <= k < middle.chapters.len() && (#[trigger] middle.chapters[k]).id
                    == second.chapter_id;
            if k < history.chapters.len() {
                assert(history.chapters[k].id == second.chapter_id);
            }
        }
    }
    lemma_saved(middle, second);
    lemma_saved_keeps_wf(middle, second);
}

/// A record that was saved can be read back: after a save that succeeds, the chapter is the
/// last of the chapters read of its manga, and what was read of other mangas is as before.
pub proof fn lemma_saved_is_read(history: HistoryView, record: SaveView, other: Seq<char>)
    requires
        history.wf(),
        history.saved(record).1 is Ok,
        other != record.id,
    ensures
        history.saved(record).0.read(record.id) == history.read(record.id).push(
            record.chapter_id,
        ),
        history.saved(record).0.read(other) == history.read(other),
{
    lemma_saved(history, record);
    let after = history.saved(record).0;
    lemma_read_upto_prefix(history.chapters, after.chapters, record.id, history.chapters.len() as int);
    lemma_read_upto_prefix(history.chapters, after.chapters, other, history.chapters.len() as int);
}

/// What is read among the first `upto` rows depends on those rows alone.
pub proof fn lemma_read_upto_prefix(
    chapters: Seq<ChapterView>,
    longer: Seq<ChapterView>,
    id: Seq<char>,
    upto: int,
)
    requires
        upto <= chapters.len() <= longer.len(),
        forall|i: int| 0 <= i < chapters.len() ==> chapters[i] == longer[i],
    ensures
        read_upto(chapters, id, upto) == read_upto(longer, id, upto),
    decreases upto,
{
    if upto > 0 {
        lemma_read_upto_prefix(chapters, longer, id, upto - 1);
    }
}

} // verus!
