//! The checks a level's data file passes once read: a non-empty background,
//! then the balance rules of [`super::level_balance`].

use vstd::prelude::*;

use crate::armors::ArmorsCatalog;
use crate::plants::PlantsCatalog;
use crate::zombies::ZombiesCatalog;

use super::data::LevelDef;
use super::level_balance::{balance_error_text, level_balance_problem, validate_level_balance_config, LevelBalanceError};

verus! {

/// Why a level could not be loaded.
#[derive(Clone, Debug, PartialEq, Eq)]
pub enum LoadLevelError {
    /// The file could not be read or parsed.
    Ron { path: String, message: String },
    /// `background` is empty.
    EmptyBackground { level_id: String },
    /// The level's pool or overrides fail the balance rules.
    InvalidBalance(LevelBalanceError),
}

/// The message that reports a load error.
pub open spec fn load_error_text(e: LoadLevelError) -> Seq<char> {
    match e {
        LoadLevelError::Ron { path, message } => "加载 "@ + path@ + " 失败: "@ + message@,
        LoadLevelError::EmptyBackground { level_id } => "关卡 "@ + level_id@ + " 的 background 不能为空"@,
        LoadLevelError::InvalidBalance(b) => balance_error_text(b),
    }
}

impl LoadLevelError {
    /// The message that reports the error (see [`load_error_text`]).
    pub fn message(&self) -> (r: String)
        ensures
            r@ == load_error_text(*self),
    {
        match self {
            LoadLevelError::Ron { path, message } => {
                let mut m = String::from_str("加载 ");
                m.append(path.as_str());
                m.append(" 失败: ");
                m.append(message.as_str());
                m
            },
            LoadLevelError::EmptyBackground { level_id } => {
                let mut m = String::from_str("关卡 ");
                m.append(level_id.as_str());
                m.append(" 的 background 不能为空");
                m
            },
            LoadLevelError::InvalidBalance(b) => b.message(),
        }
    }
}

/// Path of a level's data file, relative to the project root.
pub open spec fn manifest_path(level_id: Seq<char>) -> Seq<char> {
    "assets/data/levels/"@ + level_id + ".ron"@
}

/// `assets/data/levels/{level_id}.ron`, relative to the project root.
pub fn level_manifest_path(level_id: &str) -> (r: String)
    ensures
        r@ == manifest_path(level_id@),
{
    let mut path = String::from_str("assets/data/levels/");
    path.append(level_id);
    path.append(".ron");
    path
}

/// The outcome of reading level `level_id`'s data file, given what the
/// parser returned: a parse failure names the file; a level without a
/// background is refused.
pub fn load_level_manifest_from(level_id: &str, parsed: Result<LevelDef, String>) -> (r: Result<
    LevelDef,
    LoadLevelError,
>)
    ensures
        match parsed {
            Err(m) => r matches Err(LoadLevelError::Ron { path, message }) && path@ == manifest_path(level_id@)
                && message == m,
            Ok(def) => if def.background@.len() == 0 {
                r matches Err(LoadLevelError::EmptyBackground { level_id: id }) && id@ == level_id@
            } else {
                r == Ok::<LevelDef, LoadLevelError>(def)
            },
        },
{
    let def = match parsed {
        Err(message) => {
            return Err(LoadLevelError::Ron { path: level_manifest_path(level_id), message });
        },
        Ok(def) => def,
    };
    if def.background.as_str().is_empty() {
        return Err(LoadLevelError::EmptyBackground { level_id: level_id.to_owned() });
    }
    Ok(def)
}

/// As [`load_level_manifest_from`], then the level must pass the balance
/// rules against the global catalogs.
pub fn load_level_validated_from(
    level_id: &str,
    parsed: Result<LevelDef, String>,
    zombies: &ZombiesCatalog,
    plants: &PlantsCatalog,
    armors: &ArmorsCatalog,
) -> (r: Result<LevelDef, LoadLevelError>)
    ensures
        match parsed {
            Err(m) => r matches Err(LoadLevelError::Ron { path, message }) && path@ == manifest_path(level_id@)
                && message == m,
            Ok(def) => if def.background@.len() == 0 {
                r matches Err(LoadLevelError::EmptyBackground { level_id: id }) && id@ == level_id@
            } else {
                match level_balance_problem(def, *zombies, *plants) {
                    Some(e) => r == Err::<LevelDef, LoadLevelError>(LoadLevelError::InvalidBalance(e)),
                    None => r == Ok::<LevelDef, LoadLevelError>(def),
                }
            },
        },
{
    let def = load_level_manifest_from(level_id, parsed)?;
    match validate_level_balance_config(&def, zombies, plants, armors) {
        Err(e) => Err(LoadLevelError::InvalidBalance(e)),
        Ok(()) => Ok(def),
    }
}

} // verus!
