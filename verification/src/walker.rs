//! The traversal over enrollments, courses, themes and content items.
//!
//! The walker is a state machine: it is built from the fetched user, and is
//! then driven from outside. `next_action` says which fetch to issue next
//! (course detail, theme detail, or nothing more); the driver performs the
//! fetch and reports the outcome through `course_fetched` / `course_failed`
//! / `theme_fetched` / `theme_failed`. A failed fetch skips exactly the
//! subtree under it and the traversal continues; the walker itself never
//! fails. Content items whose status is already completed are never
//! collected; the rest accumulate as pending items in discovery order.

use crate::types::{Content, Course, Data, DataV, Matricula, OtherTheme, Theme, User};
use vstd::prelude::*;

verus! {

/// One course reference to visit: the enrollment it was found under and the
/// course identifier ("turma") taken verbatim from that enrollment.
pub struct CourseRef {
    pub matricula_id: String,
    pub turma_id: String,
}

/// Mathematical value of a [`CourseRef`].
pub ghost struct CourseRefV {
    pub matricula_id: Seq<char>,
    pub turma_id: Seq<char>,
}

impl View for CourseRef {
    type V = CourseRefV;

    open spec fn view(&self) -> CourseRefV {
        CourseRefV { matricula_id: self.matricula_id@, turma_id: self.turma_id@ }
    }
}

impl DeepView for CourseRef {
    type V = CourseRefV;

    open spec fn deep_view(&self) -> CourseRefV {
        self@
    }
}

/// One theme to visit: the enrollment, the course reference the theme
/// detail is fetched under, the course's own identifier (used in the
/// completion path), and the theme identifier.
pub struct ThemeRef {
    pub matricula_id: String,
    pub turma_id: String,
    pub course_id: String,
    pub theme_id: String,
}

/// Mathematical value of a [`ThemeRef`].
pub ghost struct ThemeRefV {
    pub matricula_id: Seq<char>,
    pub turma_id: Seq<char>,
    pub course_id: Seq<char>,
    pub theme_id: Seq<char>,
}

impl View for ThemeRef {
    type V = ThemeRefV;

    open spec fn view(&self) -> ThemeRefV {
        ThemeRefV {
            matricula_id: self.matricula_id@,
            turma_id: self.turma_id@,
            course_id: self.course_id@,
            theme_id: self.theme_id@,
        }
    }
}

impl DeepView for ThemeRef {
    type V = ThemeRefV;

    open spec fn deep_view(&self) -> ThemeRefV {
        self@
    }
}

/// What the driver must do next.
pub enum Action {
    /// Fetch the course detail of `turma` under enrollment `matricula`.
    FetchCourse { turma: String, matricula: String },
    /// Fetch the theme detail of `tema` within `turma` under `matricula`.
    FetchTheme { turma: String, tema: String, matricula: String },
    /// The traversal is finished.
    Done,
}

/// Mathematical value of an [`Action`].
pub ghost enum ActionV {
    FetchCourse { turma: Seq<char>, matricula: Seq<char> },
    FetchTheme { turma: Seq<char>, tema: Seq<char>, matricula: Seq<char> },
    Done,
}

impl View for Action {
    type V = ActionV;

    open spec fn view(&self) -> ActionV {
        match self {
            Action::FetchCourse { turma, matricula } => ActionV::FetchCourse {
                turma: turma@,
                matricula: matricula@,
            },
            Action::FetchTheme { turma, tema, matricula } => ActionV::FetchTheme {
                turma: turma@,
                tema: tema@,
                matricula: matricula@,
            },
            Action::Done => ActionV::Done,
        }
    }
}

/// The course references of one enrollment, in upstream order.
pub open spec fn course_refs_of_matricula(m: Matricula) -> Seq<CourseRefV> {
    m.turmas@.map(
        |j: int, t: String| CourseRefV { matricula_id: m.matricula@, turma_id: t@ },
    )
}

/// The course references of the first `n` enrollments, concatenated in
/// upstream order.
pub open spec fn course_refs_prefix(ms: Seq<Matricula>, n: int) -> Seq<CourseRefV>
    decreases n,
{
    if n <= 0 {
        Seq::empty()
    } else {
        course_refs_prefix(ms, n - 1) + course_refs_of_matricula(ms[n - 1])
    }
}

/// Every course reference of the user, enrollment by enrollment, each
/// enrollment's courses in upstream order.
pub open spec fn course_refs_of(u: &User) -> Seq<CourseRefV> {
    course_refs_prefix(u.matriculas@, u.matriculas@.len() as int)
}

/// The themes of a fetched course detail, in upstream order, each bound to
/// the course reference it was fetched under and to the course's own
/// identifier.
pub open spec fn theme_refs_of(course: &Course, r: CourseRefV) -> Seq<ThemeRefV> {
    course.disciplina.temas@.map(
        |j: int, t: Theme| ThemeRefV {
            matricula_id: r.matricula_id,
            turma_id: r.turma_id,
            course_id: course.id@,
            theme_id: t.id@,
        },
    )
}

/// The pending item that one not-yet-completed content yields.
pub open spec fn pending_item_of(c: Content, t: ThemeRefV) -> DataV {
    DataV {
        matricula_id: t.matricula_id,
        content_id: c.id@,
        theme_id: t.theme_id,
        course_id: t.course_id,
    }
}

/// The pending items of a theme detail's content list: exactly the contents
/// whose status is not yet completed, in upstream order.
pub open spec fn pending_of(cs: Seq<Content>, t: ThemeRefV) -> Seq<DataV>
    decreases cs.len(),
{
    if cs.len() == 0 {
        Seq::empty()
    } else {
        let rest = pending_of(cs.drop_last(), t);
        if cs.last().status_conclusao.concluido {
            rest
        } else {
            rest.push(pending_item_of(cs.last(), t))
        }
    }
}

/// Traversal state: the flat queue of course references, a cursor into it,
/// the theme queue of the course fetched last with its cursor, and the
/// pending items accumulated so far.
pub struct Walker {
    pub courses: Vec<CourseRef>,
    pub course_idx: usize,
    pub themes: Vec<ThemeRef>,
    pub theme_idx: usize,
    pub pending: Vec<Data>,
}

/// The action a walker state calls for: the next unvisited theme if the
/// current course still has one, else the next unvisited course, else done.
pub open spec fn next_action_spec(w: &Walker) -> ActionV {
    if w.theme_idx < w.themes.len() {
        let t = w.themes.deep_view()[w.theme_idx as int];
        ActionV::FetchTheme { turma: t.turma_id, tema: t.theme_id, matricula: t.matricula_id }
    } else if w.course_idx < w.courses.len() {
        let c = w.courses.deep_view()[w.course_idx as int];
        ActionV::FetchCourse { turma: c.turma_id, matricula: c.matricula_id }
    } else {
        ActionV::Done
    }
}

impl Walker {
    /// Both cursors stay within their queues.
    pub open spec fn wf(&self) -> bool {
        self.course_idx <= self.courses.len() && self.theme_idx <= self.themes.len()
    }

    /// Plans the traversal of a fetched user: the course queue is exactly
    /// the user's enrollments' course references, flattened in upstream
    /// order; nothing is visited and nothing is pending yet.
    pub fn new(user: &User) -> (w: Walker)
        ensures
            w.wf(),
            w.courses.deep_view() == course_refs_of(user),
            w.course_idx == 0,
            w.themes@.len() == 0,
            w.theme_idx == 0,
            w.pending@.len() == 0,
    {
        let mut courses: Vec<CourseRef> = Vec::new();
        let n = user.matriculas.len();
        let mut i: usize = 0;
        while i < n
            invariant
                n == user.matriculas.len(),
                i <= n,
                courses.deep_view() == course_refs_prefix(user.matriculas@, i as int),
            decreases n - i,
        {
            let k = user.matriculas[i].turmas.len();
            let mut j: usize = 0;
            while j < k
                invariant
                    n == user.matriculas.len(),
                    i < n,
                    k == user.matriculas@[i as int].turmas@.len(),
                    j <= k,
                    courses.deep_view() == course_refs_prefix(user.matriculas@, i as int)
                        + course_refs_of_matricula(user.matriculas@[i as int]).take(j as int),
                decreases k - j,
            {
                let ghost pre = courses.deep_view();
                courses.push(
                    CourseRef {
                        matricula_id: user.matriculas[i].matricula.clone(),
                        turma_id: user.matriculas[i].turmas[j].clone(),
                    },
                );
                proof {
                    let ms = user.matriculas@;
                    let refs = course_refs_of_matricula(ms[i as int]);
                    assert(courses.deep_view() =~= pre.push(courses@.last()@));
                    assert(courses@.last()@ == refs[j as int]);
                    assert(refs.take(j as int + 1) =~= refs.take(j as int).push(refs[j as int]));
                    assert(courses.deep_view() =~= course_refs_prefix(ms, i as int) + refs.take(
                        j as int + 1,
                    ));
                }
                j = j + 1;
            }
            proof {
                let ms = user.matriculas@;
                let refs = course_refs_of_matricula(ms[i as int]);
                assert(refs.take(k as int) =~= refs);
                assert(course_refs_prefix(ms, i as int + 1) == course_refs_prefix(ms, i as int)
                    + refs);
            }
            i = i + 1;
        }
        Walker {
            courses,
            course_idx: 0,
            themes: Vec::new(),
            theme_idx: 0,
            pending: Vec::new(),
        }
    }

    /// Which fetch to issue next. The current course's remaining themes come
    /// before the next course; courses and themes are visited in queue
    /// order, never reordered and never deduplicated.
    pub fn next_action(&self) -> (a: Action)
        requires
            self.wf(),
        ensures
            a@ == next_action_spec(self),
    {
        if self.theme_idx < self.themes.len() {
            let t = &self.themes[self.theme_idx];
            Action::FetchTheme {
                turma: t.turma_id.clone(),
                tema: t.theme_id.clone(),
                matricula: t.matricula_id.clone(),
            }
        } else if self.course_idx < self.courses.len() {
            let c = &self.courses[self.course_idx];
            Action::FetchCourse { turma: c.turma_id.clone(), matricula: c.matricula_id.clone() }
        } else {
            Action::Done
        }
    }

    /// The pending course fetch succeeded: queue that course's themes, in
    /// upstream order, and move past the course. Nothing already pending
    /// changes.
    pub fn course_fetched(&mut self, course: &Course)
        requires
            old(self).wf(),
            old(self).theme_idx == old(self).themes.len(),
            old(self).course_idx < old(self).courses.len(),
        ensures
            final(self).wf(),
            final(self).courses == old(self).courses,
            final(self).course_idx == old(self).course_idx + 1,
            final(self).themes.deep_view() == theme_refs_of(
                course,
                old(self).courses.deep_view()[old(self).course_idx as int],
            ),
            final(self).theme_idx == 0,
            final(self).pending == old(self).pending,
    {
        let cr_matricula = self.courses[self.course_idx].matricula_id.clone();
        let cr_turma = self.courses[self.course_idx].turma_id.clone();
        let ghost cr = self.courses.deep_view()[self.course_idx as int];
        let mut themes: Vec<ThemeRef> = Vec::new();
        let n = course.disciplina.temas.len();
        let mut k: usize = 0;
        while k < n
            invariant
                n == course.disciplina.temas@.len(),
                k <= n,
                cr_matricula@ == cr.matricula_id,
                cr_turma@ == cr.turma_id,
                themes.deep_view() == theme_refs_of(course, cr).take(k as int),
            decreases n - k,
        {
            let ghost pre = themes.deep_view();
            themes.push(
                ThemeRef {
                    matricula_id: cr_matricula.clone(),
                    turma_id: cr_turma.clone(),
                    course_id: course.id.clone(),
                    theme_id: course.disciplina.temas[k].id.clone(),
                },
            );
            proof {
                let refs = theme_refs_of(course, cr);
                assert(themes.deep_view() =~= pre.push(themes@.last()@));
                assert(themes@.last()@ == refs[k as int]);
                assert(refs.take(k as int + 1) =~= refs.take(k as int).push(refs[k as int]));
            }
            k = k + 1;
        }
        proof {
            assert(theme_refs_of(course, cr).take(n as int) =~= theme_refs_of(course, cr));
        }
        self.themes = themes;
        self.theme_idx = 0;
        self.course_idx = self.course_idx + 1;
    }

    /// The pending course fetch failed: skip the course, so none of its
    /// themes is ever queued or visited, keep everything already pending,
    /// and continue with the next course. The failure is swallowed; the
    /// traversal does not abort.
    pub fn course_failed(&mut self)
        requires
            old(self).wf(),
            old(self).theme_idx == old(self).themes.len(),
            old(self).course_idx < old(self).courses.len(),
        ensures
            final(self).wf(),
            final(self).courses == old(self).courses,
            final(self).course_idx == old(self).course_idx + 1,
            final(self).themes == old(self).themes,
            final(self).theme_idx == old(self).theme_idx,
            final(self).pending == old(self).pending,
    {
        self.course_idx = self.course_idx + 1;
    }

    /// The pending theme fetch succeeded: append, in upstream order, one
    /// pending item for every content of the theme not yet completed —
    /// contents already completed are never collected — and move past the
    /// theme.
    pub fn theme_fetched(&mut self, detail: &OtherTheme)
        requires
            old(self).wf(),
            old(self).theme_idx < old(self).themes.len(),
        ensures
            final(self).wf(),
            final(self).courses == old(self).courses,
            final(self).course_idx == old(self).course_idx,
            final(self).themes == old(self).themes,
            final(self).theme_idx == old(self).theme_idx + 1,
            final(self).pending.deep_view() == old(self).pending.deep_view() + pending_of(
                detail.conteudos@,
                old(self).themes.deep_view()[old(self).theme_idx as int],
            ),
    {
        let tr_matricula = self.themes[self.theme_idx].matricula_id.clone();
        let tr_course = self.themes[self.theme_idx].course_id.clone();
        let tr_theme = self.themes[self.theme_idx].theme_id.clone();
        let ghost tr = self.themes.deep_view()[self.theme_idx as int];
        let ghost base = self.pending.deep_view();
        let n = detail.conteudos.len();
        let mut k: usize = 0;
        while k < n
            invariant
                n == detail.conteudos@.len(),
                k <= n,
                tr_matricula@ == tr.matricula_id,
                tr_course@ == tr.course_id,
                tr_theme@ == tr.theme_id,
                self.courses == old(self).courses,
                self.course_idx == old(self).course_idx,
                self.themes == old(self).themes,
                self.theme_idx == old(self).theme_idx,
                old(self).wf(),
                self.pending.deep_view() == base + pending_of(
                    detail.conteudos@.take(k as int),
                    tr,
                ),
            decreases n - k,
        {
            if !detail.conteudos[k].status_conclusao.concluido {
                let ghost pre = self.pending.deep_view();
                self.pending.push(
                    Data {
                        matricula_id: tr_matricula.clone(),
                        content_id: detail.conteudos[k].id.clone(),
                        theme_id: tr_theme.clone(),
                        course_id: tr_course.clone(),
                    },
                );
                proof {
                    assert(self.pending.deep_view() =~= pre.push(self.pending@.last()@));
                    assert(self.pending@.last()@ == pending_item_of(
                        detail.conteudos@[k as int],
                        tr,
                    ));
                }
            }
            proof {
                let cs = detail.conteudos@;
                assert(cs.take(k as int + 1).drop_last() =~= cs.take(k as int));
                assert(cs.take(k as int + 1).last() == cs[k as int]);
                assert(self.pending.deep_view() =~= base + pending_of(cs.take(k as int + 1), tr));
            }
            k = k + 1;
        }
        proof {
            assert(detail.conteudos@.take(n as int) =~= detail.conteudos@);
        }
        self.theme_idx = self.theme_idx + 1;
    }

    /// The pending theme fetch failed: skip the theme, keep everything
    /// already pending, and continue. The failure is swallowed; the
    /// traversal does not abort.
    pub fn theme_failed(&mut self)
        requires
            old(self).wf(),
            old(self).theme_idx < old(self).themes.len(),
        ensures
            final(self).wf(),
            final(self).courses == old(self).courses,
            final(self).course_idx == old(self).course_idx,
            final(self).themes == old(self).themes,
            final(self).theme_idx == old(self).theme_idx + 1,
            final(self).pending == old(self).pending,
    {
        self.theme_idx = self.theme_idx + 1;
    }
}

/// How many course references the first `a` enrollments contribute.
pub open spec fn count_refs_before(ms: Seq<Matricula>, a: int) -> int
    decreases a,
{
    if a <= 0 {
        0
    } else {
        count_refs_before(ms, a - 1) + ms[a - 1].turmas@.len()
    }
}

proof fn lemma_prefix_len(ms: Seq<Matricula>, n: int)
    requires
        0 <= n <= ms.len(),
    ensures
        course_refs_prefix(ms, n).len() == count_refs_before(ms, n),
    decreases n,
{
    if n > 0 {
        lemma_prefix_len(ms, n - 1);
    }
}

proof fn lemma_count_mono(ms: Seq<Matricula>, x: int, y: int)
    requires
        0 <= x <= y,
    ensures
        count_refs_before(ms, x) <= count_refs_before(ms, y),
    decreases y,
{
    if x < y {
        lemma_count_mono(ms, x, y - 1);
    }
}

proof fn lemma_prefix_index(ms: Seq<Matricula>, n: int, a: int, b: int)
    requires
        0 <= a < n <= ms.len(),
        0 <= b < ms[a].turmas@.len(),
    ensures
        0 <= count_refs_before(ms, a) + b < course_refs_prefix(ms, n).len(),
        course_refs_prefix(ms, n)[count_refs_before(ms, a) + b] == (CourseRefV {
            matricula_id: ms[a].matricula@,
            turma_id: ms[a].turmas@[b]@,
        }),
    decreases n,
{
    lemma_prefix_len(ms, n);
    lemma_prefix_len(ms, n - 1);
    lemma_count_mono(ms, 0, a);
    if a == n - 1 {
        lemma_prefix_len(ms, a);
        assert(course_refs_of_matricula(ms[a])[b] == (CourseRefV {
            matricula_id: ms[a].matricula@,
            turma_id: ms[a].turmas@[b]@,
        }));
    } else {
        lemma_prefix_index(ms, n - 1, a, b);
        lemma_count_mono(ms, a + 1, n - 1);
        assert(count_refs_before(ms, a) + b < count_refs_before(ms, a + 1));
    }
}

/// Traversal order: the walker's course queue lists the user's course
/// references exactly as the upstream arrays give them — the `b`-th course
/// of the `a`-th enrollment stands at the position all courses of earlier
/// enrollments plus `b` leave it, never reordered and never deduplicated.
pub proof fn lemma_course_traversal_order(u: &User, a: int, b: int)
    requires
        0 <= a < u.matriculas@.len(),
        0 <= b < u.matriculas@[a].turmas@.len(),
    ensures
        course_refs_of(u).len() == count_refs_before(u.matriculas@, u.matriculas@.len() as int),
        0 <= count_refs_before(u.matriculas@, a) + b < course_refs_of(u).len(),
        course_refs_of(u)[count_refs_before(u.matriculas@, a) + b] == (CourseRefV {
            matricula_id: u.matriculas@[a].matricula@,
            turma_id: u.matriculas@[a].turmas@[b]@,
        }),
{
    lemma_prefix_len(u.matriculas@, u.matriculas@.len() as int);
    lemma_prefix_index(u.matriculas@, u.matriculas@.len() as int, a, b);
}

/// Traversal order within a course: the walker's theme queue lists the
/// course's themes exactly as the upstream array gives them.
pub proof fn lemma_theme_traversal_order(course: &Course, r: CourseRefV, j: int)
    requires
        0 <= j < course.disciplina.temas@.len(),
    ensures
        theme_refs_of(course, r).len() == course.disciplina.temas@.len(),
        theme_refs_of(course, r)[j] == (ThemeRefV {
            matricula_id: r.matricula_id,
            turma_id: r.turma_id,
            course_id: course.id@,
            theme_id: course.disciplina.temas@[j].id@,
        }),
{
}

/// A failed course fetch never lets that course's themes be visited, and
/// the traversal does not abort: in the state the failure leaves — cursor
/// moved past the course, theme queue still exhausted, pending unchanged —
/// the next action is the following course's fetch if one remains, else the
/// traversal is done; it is never a theme fetch.
pub proof fn lemma_course_failure_continues(w_before: &Walker, w_after: &Walker)
    requires
        w_before.wf(),
        w_before.theme_idx == w_before.themes.len(),
        w_before.course_idx < w_before.courses.len(),
        w_after.courses == w_before.courses,
        w_after.course_idx == w_before.course_idx + 1,
        w_after.themes == w_before.themes,
        w_after.theme_idx == w_before.theme_idx,
        w_after.pending == w_before.pending,
    ensures
        w_after.wf(),
        !(next_action_spec(w_after) is FetchTheme),
        w_after.course_idx < w_after.courses.len() ==> next_action_spec(w_after)
            == (ActionV::FetchCourse {
            turma: w_after.courses.deep_view()[w_after.course_idx as int].turma_id,
            matricula: w_after.courses.deep_view()[w_after.course_idx as int].matricula_id,
        }),
        w_after.course_idx == w_after.courses.len() ==> next_action_spec(w_after)
            == ActionV::Done,
{
}

/// Completed content is never pending: every pending item a theme detail
/// yields stems from a content whose status is not completed, with that
/// content's identifier verbatim; a content already completed yields none.
pub proof fn lemma_pending_only_incomplete(cs: Seq<Content>, t: ThemeRefV, k: int)
    requires
        0 <= k < pending_of(cs, t).len(),
    ensures
        exists|j: int|
            0 <= j < cs.len() && !(#[trigger] cs[j]).status_conclusao.concluido && pending_of(
                cs,
                t,
            )[k] == pending_item_of(cs[j], t),
    decreases cs.len(),
{
    let rest = pending_of(cs.drop_last(), t);
    if cs.last().status_conclusao.concluido {
        lemma_pending_only_incomplete(cs.drop_last(), t, k);
        let j = choose|j: int|
            0 <= j < cs.drop_last().len() && !(#[trigger] cs.drop_last()[j]).status_conclusao.concluido
                && rest[k] == pending_item_of(cs.drop_last()[j], t);
        assert(cs.drop_last()[j] == cs[j]);
        assert(!cs[j].status_conclusao.concluido && pending_of(cs, t)[k] == pending_item_of(
            cs[j],
            t,
        ));
    } else {
        if k < rest.len() {
            lemma_pending_only_incomplete(cs.drop_last(), t, k);
            let j = choose|j: int|
                0 <= j < cs.drop_last().len() && !(#[trigger] cs.drop_last()[j]).status_conclusao.concluido
                    && rest[k] == pending_item_of(cs.drop_last()[j], t);
            assert(cs.drop_last()[j] == cs[j]);
            assert(!cs[j].status_conclusao.concluido && pending_of(cs, t)[k]
                == pending_item_of(cs[j], t));
        } else {
            let j = cs.len() - 1;
            assert(!cs[j].status_conclusao.concluido && pending_of(cs, t)[k]
                == pending_item_of(cs[j], t));
        }
    }
}

} // verus!
