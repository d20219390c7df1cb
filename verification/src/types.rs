//! Data model of the upstream REST API.
//!
//! Every identifier is an opaque string copied verbatim from an upstream
//! response; the library never generates or transforms identifiers. The
//! structs mirror the JSON shapes the four endpoints return; decoding the
//! JSON itself happens outside the library, which only ever receives the
//! already-built values.

use vstd::prelude::*;

verus! {

/// The four identifiers that address one completion POST: a pending item.
/// Built only for content whose completion status is still false.
#[derive(Clone, Debug, Default)]
pub struct Data {
    pub matricula_id: String,
    pub content_id: String,
    pub theme_id: String,
    pub course_id: String,
}

/// Mathematical value of a [`Data`]: the four identifiers as character
/// sequences.
pub ghost struct DataV {
    pub matricula_id: Seq<char>,
    pub content_id: Seq<char>,
    pub theme_id: Seq<char>,
    pub course_id: Seq<char>,
}

impl View for Data {
    type V = DataV;

    open spec fn view(&self) -> DataV {
        DataV {
            matricula_id: self.matricula_id@,
            content_id: self.content_id@,
            theme_id: self.theme_id@,
            course_id: self.course_id@,
        }
    }
}

impl DeepView for Data {
    type V = DataV;

    open spec fn deep_view(&self) -> DataV {
        self@
    }
}

impl Data {
    /// Packs the four identifiers, verbatim and in full.
    pub fn new(matricula_id: &str, course_id: &str, theme_id: &str, content_id: &str) -> (d: Data)
        ensures
            d@.matricula_id == matricula_id@,
            d@.course_id == course_id@,
            d@.theme_id == theme_id@,
            d@.content_id == content_id@,
    {
        Data {
            matricula_id: matricula_id.to_owned(),
            content_id: content_id.to_owned(),
            theme_id: theme_id.to_owned(),
            course_id: course_id.to_owned(),
        }
    }
}

/// The current user: identity plus the ordered enrollments.
#[derive(Clone, Debug, Default)]
pub struct User {
    pub id: String,
    pub id_externo: String,
    pub nome: String,
    pub email_pessoal: String,
    pub origem: String,
    pub email_utilizado: String,
    pub plataforma: String,
    pub config: Option<Config>,
    pub credenciais: Vec<String>,
    pub marca: String,
    pub matriculas: Vec<Matricula>,
}

/// Per-user platform settings.
#[derive(Clone, Debug, Default)]
pub struct Config {
    pub visualizou_aviso_bdq: Option<bool>,
    pub visualizou_onboarding: Option<bool>,
}

/// An enrollment ("matricula"): its record number plus the ordered course
/// references ("turmas", opaque string identifiers).
#[derive(Clone, Debug, Default)]
pub struct Matricula {
    pub id: String,
    pub id_externo: String,
    pub calendario: String,
    pub campus: String,
    pub entregas: Vec<String>,
    pub turmas: Vec<String>,
    pub matricula: String,
    pub modalidade: String,
    pub nome_curso: String,
    pub situacao: String,
    pub periodo: String,
    pub regional: String,
    pub tipo_curso: String,
    pub periodos_anteriores: Vec<String>,
    pub turno: String,
    pub codigo_curso: String,
    pub turmas_cursadas: Vec<TurmaCursada>,
    pub periodo_flexivel_atual: String,
    pub total_periodos_curso: String,
    pub safra: String,
}

/// A course section already taken in an earlier period.
#[derive(Clone, Debug, Default)]
pub struct TurmaCursada {
    pub id: String,
    pub situacao: String,
    pub periodo_matricula: String,
}

/// Course detail ("turma"): an identifier plus one discipline holding the
/// ordered themes.
#[derive(Clone, Debug, Default)]
pub struct Course {
    pub codigo_entrega: String,
    pub formato: String,
    pub id: String,
    pub id_disciplina: String,
    pub marca: String,
    pub total_alunos_matriculados: u32,
    pub campus: String,
    pub educadores: Vec<Educador>,
    pub horarios: Vec<Horario>,
    pub disciplina: Discipline,
    pub habilitar_agendamento_laboratorio: bool,
    pub habilitar_tutoria_zero_duvidas: bool,
    pub habilitar_comunidade_zero_duvidas: bool,
    pub habilitar_atendimento_coordenacao_zero_duvidas: bool,
    pub habilitar_redirecionamento_teams: bool,
    pub tipo_turma: String,
    pub tipo_curso: String,
    pub educador_responsavel: Educador,
    pub periodo_academico: String,
    pub local: Local,
}

/// A course educator.
#[derive(Clone, Debug, Default)]
pub struct Educador {
    pub nome: String,
    pub perfil: String,
}

/// A weekly class slot.
#[derive(Clone, Debug, Default)]
pub struct Horario {
    pub dia_semana: String,
    pub hora_inicio: String,
    pub hora_fim: String,
}

/// Where a course section meets.
#[derive(Clone, Debug, Default)]
pub struct Local {
    pub blocos: Vec<String>,
    pub salas: Vec<String>,
}

/// A discipline: metadata plus the ordered themes of the course.
#[derive(Clone, Debug, Default)]
pub struct Discipline {
    pub id: String,
    pub grupo_marca: String,
    pub codigo: String,
    pub nome: String,
    pub embaixadora: bool,
    pub temas: Vec<Theme>,
    pub objetos: Vec<Objeto>,
    pub data_atualizacao: String,
    pub versionamento: Versionamento,
}

/// Versioning metadata of a discipline.
#[derive(Clone, Debug, Default)]
pub struct Versionamento {
    pub periodos_academicos: Vec<String>,
    pub data_criacao: String,
}

/// A theme as embedded in a course detail: identifier and metadata only.
#[derive(Clone, Debug, Default)]
pub struct Theme {
    pub id: String,
    pub titulo: String,
    pub ordem: u32,
    pub tipo: String,
    pub possui_exercicios: bool,
    pub categoria: String,
    pub rotulo: String,
    pub objetos: Vec<Objeto>,
    pub credito_digital: String,
    pub versionado: bool,
}

/// A learning object attached to a theme or discipline.
#[derive(Clone, Debug, Default)]
pub struct Objeto {
    pub id: String,
    pub ordem: u32,
    pub titulo: String,
    pub quem_pode_ver: String,
    pub tipo: String,
    pub url: String,
    pub possui_tempo_minimo: Option<bool>,
    pub tempo_minimo: Option<u32>,
    pub extensionista: Option<bool>,
    pub obrigatorio: Option<bool>,
    pub versionada: Option<bool>,
}

/// Theme detail, fetched per theme: identifier plus the ordered content
/// items.
#[derive(Clone, Debug, Default)]
pub struct OtherTheme {
    pub id: String,
    pub titulo: String,
    pub ordem: u32,
    pub rotulo: String,
    pub categoria: String,
    pub conteudos: Vec<Content>,
}

/// An individual content item, markable as completed.
#[derive(Clone, Debug, Default)]
pub struct Content {
    pub tipo: String,
    pub id: String,
    pub ordem: u32,
    pub titulo: String,
    pub conclusivel: bool,
    pub status_conclusao: Status,
    pub url: String,
}

/// Completion status of a content item.
#[derive(Clone, Debug, Default)]
pub struct Status {
    pub concluido: bool,
    pub data_conclusao: Option<String>,
    pub tempo_minimo_conclusao_conteudo: u32,
    pub tempo_restante_conclusao_em_segundos: u32,
}

} // verus!
