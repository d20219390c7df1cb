//! Request paths of the four upstream endpoints.
//!
//! Every identifier is spliced into a path verbatim: the path is a plain
//! concatenation of fixed segments and the identifiers, with no escaping or
//! other transformation, and each identifier can be read back out of the
//! path unchanged.

use crate::types::{Data, DataV};
use vstd::prelude::*;
use vstd::string::StringExecFns;

verus! {

/// Path of the current-user endpoint.
pub open spec fn me_path_spec() -> Seq<char> {
    "/rest/me"@
}

/// Path of the current-user endpoint.
pub fn me_path() -> (r: String)
    ensures
        r@ == me_path_spec(),
{
    "/rest/me".to_owned()
}

/// Path of the course-detail endpoint for one course reference within one
/// enrollment.
pub open spec fn course_detail_path_spec(turma: Seq<char>, matricula: Seq<char>) -> Seq<char> {
    "/rest/turmas/"@ + turma + "/detalhes?matricula="@ + matricula
}

/// Path of the course-detail endpoint for one course reference within one
/// enrollment.
pub fn course_detail_path(turma: &str, matricula: &str) -> (r: String)
    ensures
        r@ == course_detail_path_spec(turma@, matricula@),
{
    let mut r = "/rest/turmas/".to_owned();
    r.append(turma);
    r.append("/detalhes?matricula=");
    r.append(matricula);
    r
}

/// Path of the theme-detail endpoint for one theme of a course.
pub open spec fn theme_detail_path_spec(
    turma: Seq<char>,
    tema: Seq<char>,
    matricula: Seq<char>,
) -> Seq<char> {
    "/rest/turmas/"@ + turma + "/temas/"@ + tema + "?matricula="@ + matricula
}

/// Path of the theme-detail endpoint for one theme of a course.
pub fn theme_detail_path(turma: &str, tema: &str, matricula: &str) -> (r: String)
    ensures
        r@ == theme_detail_path_spec(turma@, tema@, matricula@),
{
    let mut r = "/rest/turmas/".to_owned();
    r.append(turma);
    r.append("/temas/");
    r.append(tema);
    r.append("?matricula=");
    r.append(matricula);
    r
}

/// Path of the completion POST for one pending item: the four identifiers
/// spliced verbatim between the fixed segments.
pub open spec fn conclusion_path_spec(d: DataV) -> Seq<char> {
    "/rest/turmas/"@ + d.course_id + "/temas/"@ + d.theme_id + "/conteudos/"@ + d.content_id
        + "/conclusoes?matricula="@ + d.matricula_id
}

/// Path of the completion POST for one pending item.
pub fn conclusion_path(data: &Data) -> (r: String)
    ensures
        r@ == conclusion_path_spec(data@),
{
    let mut r = "/rest/turmas/".to_owned();
    r.append(data.course_id.as_str());
    r.append("/temas/");
    r.append(data.theme_id.as_str());
    r.append("/conteudos/");
    r.append(data.content_id.as_str());
    r.append("/conclusoes?matricula=");
    r.append(data.matricula_id.as_str());
    r
}

/// Round trip: the completion path reproduces the four identifiers of the
/// pending item exactly, each readable back out of the path at its position,
/// with no transformation.
pub proof fn lemma_conclusion_path_round_trip(d: DataV)
    ensures
        conclusion_path_spec(d).len() == 53 + d.course_id.len() + d.theme_id.len()
            + d.content_id.len() + d.matricula_id.len(),
        conclusion_path_spec(d).subrange(13, 13 + d.course_id.len() as int) == d.course_id,
        conclusion_path_spec(d).subrange(
            20 + d.course_id.len() as int,
            (20 + d.course_id.len() + d.theme_id.len()) as int,
        ) == d.theme_id,
        conclusion_path_spec(d).subrange(
            (31 + d.course_id.len() + d.theme_id.len()) as int,
            (31 + d.course_id.len() + d.theme_id.len() + d.content_id.len()) as int,
        ) == d.content_id,
        conclusion_path_spec(d).subrange(
            (53 + d.course_id.len() + d.theme_id.len() + d.content_id.len()) as int,
            conclusion_path_spec(d).len() as int,
        ) == d.matricula_id,
{
    reveal_strlit("/rest/turmas/");
    reveal_strlit("/temas/");
    reveal_strlit("/conteudos/");
    reveal_strlit("/conclusoes?matricula=");
    let p = conclusion_path_spec(d);
    assert(p.subrange(13, 13 + d.course_id.len() as int) =~= d.course_id);
    assert(p.subrange(20 + d.course_id.len() as int, (20 + d.course_id.len() + d.theme_id.len()) as int)
        =~= d.theme_id);
    assert(p.subrange(
        (31 + d.course_id.len() + d.theme_id.len()) as int,
        (31 + d.course_id.len() + d.theme_id.len() + d.content_id.len()) as int,
    ) =~= d.content_id);
    assert(p.subrange((53 + d.course_id.len() + d.theme_id.len() + d.content_id.len()) as int, p.len() as int)
        =~= d.matricula_id);
}

} // verus!
