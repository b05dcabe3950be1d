use vstd::prelude::*;

verus! {

#[derive(Debug, PartialEq, Eq, Hash)]
pub struct SubjectId(pub String);

impl Clone for SubjectId {
    fn clone(&self) -> (r: Self)
        ensures
            r == *self,
    {
        SubjectId(self.0.clone())
    }
}

/// A subject with the time studied in it.
#[derive(Debug)]
pub struct SubjectStats {
    pub id: SubjectId,
    pub name: String,
    pub color_hex: String,
    /// The default subject cannot be deleted.
    pub is_default: bool,
    pub total_seconds: i64,
    /// Start of the most recent block, if any.
    pub last_session: Option<i64>,
}

impl Clone for SubjectStats {
    fn clone(&self) -> (r: Self)
        ensures
            r == *self,
    {
        SubjectStats {
            id: self.id.clone(),
            name: self.name.clone(),
            color_hex: self.color_hex.clone(),
            is_default: self.is_default,
            total_seconds: self.total_seconds,
            last_session: self.last_session,
        }
    }
}

/// The colour shown for a subject that has none.
pub open spec fn fallback_color() -> Seq<char> {
    "#c0c0c0"@
}

impl SubjectStats {
    /// A subject from its stored columns: a missing colour reads as the
    /// fallback colour, and any nonzero `is_default` flag marks the default
    /// subject.
    pub fn from_columns(
        id: SubjectId,
        name: String,
        color_hex: Option<String>,
        is_default: i64,
        total_seconds: i64,
        last_session: Option<i64>,
    ) -> (r: Self)
        ensures
            r.id == id,
            r.name == name,
            color_hex matches Some(c) ==> r.color_hex == c,
            color_hex is None ==> r.color_hex@ == fallback_color(),
            r.is_default == (is_default != 0),
            r.total_seconds == total_seconds,
            r.last_session == last_session,
    {
        let color_hex = match color_hex {
            Some(c) => c,
            None => "#c0c0c0".to_owned(),
        };
        SubjectStats { id, name, color_hex, is_default: is_default != 0, total_seconds, last_session }
    }
}

} // verus!
