//! The configuration-file model: named profiles with role, source-profile
//! and region settings, plus an optional default region.
//!
//! Section naming follows the dual convention of the two file kinds: a
//! section named exactly `default` never becomes a profile, a section named
//! `profile X` yields a profile named `X` (config-file convention), and any
//! other section name is itself the profile name (credentials-file
//! convention).

use vstd::prelude::*;
use vstd::pervasive::VecAdditionalExecFns;

use crate::error::Error;
use crate::ini_doc::IniSection;
use crate::ini_doc::SectionModel;
use crate::ini_doc::find_section;
use crate::ini_doc::ini_doc_of;
use crate::ini_doc::pairs_get;
use crate::ini_doc::parse_ini_text;
use crate::ini_doc::spec_find_section;
use crate::ini_doc::spec_pairs_get;
use crate::region::Region;
use crate::region::spec_region_from_name;
use crate::strutil::clone_opt_ref;
use crate::strutil::str_eq;

verus! {

/// A value that can be built by reading and parsing one file.
pub trait LoadFromPath where Self: Sized {
    type Error;

    fn load_from_path(filename: &str) -> Result<Self, Self::Error>;
}

/// One resolved profile of a configuration file.
#[derive(Debug, PartialEq, Eq)]
pub struct ConfigProfile {
    pub name: String,
    pub role_arn: Option<String>,
    pub source_profile: Option<String>,
    pub region: Option<Region>,
}

/// The mathematical model of one profile.
pub ghost struct ProfileModel {
    pub name: Seq<char>,
    pub role_arn: Option<Seq<char>>,
    pub source_profile: Option<Seq<char>>,
    pub region: Option<Region>,
}

impl View for ConfigProfile {
    type V = ProfileModel;

    open spec fn view(&self) -> ProfileModel {
        ProfileModel {
            name: self.name@,
            role_arn: self.role_arn.deep_view(),
            source_profile: self.source_profile.deep_view(),
            region: self.region,
        }
    }
}

impl DeepView for ConfigProfile {
    type V = ProfileModel;

    open spec fn deep_view(&self) -> ProfileModel {
        self.view()
    }
}

impl ConfigProfile {
    /// A profile carrying a name and nothing else.
    pub fn new(name: String) -> (r: ConfigProfile)
        ensures
            r@ == (ProfileModel {
                name: name@,
                role_arn: None,
                source_profile: None,
                region: None,
            }),
    {
        ConfigProfile { name, role_arn: None, source_profile: None, region: None }
    }
}

/// A parsed configuration file: its profiles in document order and the
/// region of its `default` section, if any.
#[derive(Debug, PartialEq, Eq)]
pub struct Config {
    pub default_region: Option<Region>,
    pub profiles: Vec<ConfigProfile>,
}

/// The mathematical model of a parsed configuration file.
pub ghost struct ConfigModel {
    pub default_region: Option<Region>,
    pub profiles: Seq<ProfileModel>,
}

impl View for Config {
    type V = ConfigModel;

    open spec fn view(&self) -> ConfigModel {
        ConfigModel { default_region: self.default_region, profiles: self.profiles.deep_view() }
    }
}

impl DeepView for Config {
    type V = ConfigModel;

    open spec fn deep_view(&self) -> ConfigModel {
        self.view()
    }
}

/// The profile name that a section name yields: `None` for the section named
/// exactly `default`, the rest of the name after the `profile ` prefix where
/// that prefix is present, and the section name itself otherwise.
pub open spec fn spec_profile_name(section: Seq<char>) -> Option<Seq<char>> {
    if section.len() >= 8 && section.subrange(0, 8) == "profile "@ {
        Some(section.skip(8))
    } else if section == "default"@ {
        None
    } else {
        Some(section)
    }
}

/// The profile name that a section name yields, if any.
pub fn get_profile_name_from_section_name(section_name: &str) -> (r: Option<String>)
    ensures
        r.deep_view() == spec_profile_name(section_name@),
{
    let n = section_name.unicode_len();
    if n >= 8 {
        let prefix = section_name.substring_char(0, 8);
        if str_eq(prefix, "profile ") {
            let rest = section_name.substring_char(8, n);
            proof {
                assert(section_name@.skip(8) =~= section_name@.subrange(
                    8,
                    section_name@.len() as int,
                ));
            }
            return Some(rest.to_owned());
        }
    }
    if str_eq(section_name, "default") {
        None
    } else {
        Some(section_name.to_owned())
    }
}

/// The profile entry a section yields: `None` where the section yields no
/// profile, and a failure carrying the offending region string where the
/// section's `region` value is not a valid region identifier.
pub open spec fn spec_profile_of_section(sec: SectionModel) -> Option<
    Result<ProfileModel, Seq<char>>,
> {
    match sec.0 {
        None => None,
        Some(section_name) => match spec_profile_name(section_name) {
            None => None,
            Some(pname) => {
                let role_arn = spec_pairs_get(sec.1, "role_arn"@);
                let source_profile = spec_pairs_get(sec.1, "source_profile"@);
                match spec_pairs_get(sec.1, "region"@) {
                    None => Some(
                        Ok(ProfileModel { name: pname, role_arn, source_profile, region: None }),
                    ),
                    Some(rs) => match spec_region_from_name(rs) {
                        None => Some(Err(rs)),
                        Some(rg) => Some(
                            Ok(
                                ProfileModel {
                                    name: pname,
                                    role_arn,
                                    source_profile,
                                    region: Some(rg),
                                },
                            ),
                        ),
                    },
                }
            },
        },
    }
}

/// The position of the first profile carrying the given name.
pub open spec fn spec_index_of_name(ps: Seq<ProfileModel>, name: Seq<char>) -> Option<int>
    decreases ps.len(),
{
    if ps.len() == 0 {
        None
    } else if ps[0].name == name {
        Some(0)
    } else {
        match spec_index_of_name(ps.drop_first(), name) {
            None => None,
            Some(i) => Some(i + 1),
        }
    }
}

/// The same position, moved right by `k`.
pub open spec fn spec_shift_index(o: Option<int>, k: int) -> Option<int> {
    match o {
        None => None,
        Some(i) => Some(i + k),
    }
}

/// Adding a profile to a sequence: a profile already carrying the same name
/// is replaced in place, and a new name is appended.
pub open spec fn spec_upsert(ps: Seq<ProfileModel>, p: ProfileModel) -> Seq<ProfileModel> {
    match spec_index_of_name(ps, p.name) {
        Some(i) => ps.update(i, p),
        None => ps.push(p),
    }
}

/// The profiles of a document's sections, in document order, later sections
/// replacing earlier ones of the same name; or the first offending region
/// string.
pub open spec fn spec_build_profiles(doc: Seq<SectionModel>) -> Result<Seq<ProfileModel>, Seq<char>>
    decreases doc.len(),
{
    if doc.len() == 0 {
        Ok(Seq::empty())
    } else {
        match spec_build_profiles(doc.drop_last()) {
            Err(e) => Err(e),
            Ok(ps) => match spec_profile_of_section(doc.last()) {
                None => Ok(ps),
                Some(Err(bad)) => Err(bad),
                Some(Ok(p)) => Ok(spec_upsert(ps, p)),
            },
        }
    }
}

/// The `region` value of the first section named exactly `default`, if any.
pub open spec fn spec_default_region_value(doc: Seq<SectionModel>) -> Option<Seq<char>> {
    match spec_find_section(doc, "default"@) {
        None => None,
        Some(sec) => spec_pairs_get(sec.1, "region"@),
    }
}

/// What parsing a whole document yields: the default region and the
/// profiles, or the first offending region string.
pub open spec fn spec_parse_config(doc: Seq<SectionModel>) -> Result<ConfigModel, Seq<char>> {
    match spec_default_region_value(doc) {
        Some(rs) => match spec_region_from_name(rs) {
            None => Err(rs),
            Some(dr) => match spec_build_profiles(doc) {
                Err(e) => Err(e),
                Ok(ps) => Ok(ConfigModel { default_region: Some(dr), profiles: ps }),
            },
        },
        None => match spec_build_profiles(doc) {
            Err(e) => Err(e),
            Ok(ps) => Ok(ConfigModel { default_region: None, profiles: ps }),
        },
    }
}

/// An error of a prefix of the document is the error of the whole document.
proof fn lemma_build_err_extends(doc: Seq<SectionModel>, j: int)
    requires
        0 <= j <= doc.len(),
        spec_build_profiles(doc.take(j)) is Err,
    ensures
        spec_build_profiles(doc) == spec_build_profiles(doc.take(j)),
    decreases doc.len() - j,
{
    if j == doc.len() {
        assert(doc.take(j) =~= doc);
    } else {
        assert(doc.take(j + 1).drop_last() =~= doc.take(j));
        lemma_build_err_extends(doc, j + 1);
    }
}

/// Replaces the first profile carrying the same name, or appends.
#[verifier::loop_isolation(false)]
fn upsert_profile(profiles: &mut Vec<ConfigProfile>, p: ConfigProfile)
    ensures
        final(profiles).deep_view() == spec_upsert(old(profiles).deep_view(), p@),
{
    let ghost orig = profiles.deep_view();
    let ghost nm = p@.name;
    let n = profiles.len();
    let mut i: usize = 0;
    proof {
        assert(orig.skip(0) =~= orig);
        assert(spec_shift_index(spec_index_of_name(orig, nm), 0) == spec_index_of_name(orig, nm));
    }
    while i < n
        invariant
            i <= n == profiles.len(),
            orig == profiles.deep_view(),
            nm == p@.name,
            spec_index_of_name(orig, nm) == spec_shift_index(
                spec_index_of_name(orig.skip(i as int), nm),
                i as int,
            ),
        decreases n - i,
    {
        proof {
            assert(orig.skip(i as int)[0] == orig[i as int]);
            assert(orig[i as int] == profiles[i as int]@);
        }
        if str_eq(profiles[i].name.as_str(), p.name.as_str()) {
            proof {
                assert(spec_index_of_name(orig.skip(i as int), nm) == Some(0int));
                assert(spec_index_of_name(orig, nm) == Some(i as int));
            }
            let ghost pv = p@;
            let ghost vec_before = profiles@;
            profiles.set(i, p);
            proof {
                let new_deep = profiles.deep_view();
                let expect = orig.update(i as int, pv);
                assert forall|k: int| 0 <= k < new_deep.len() implies new_deep[k] == expect[k] by {
                    assert(new_deep[k] == profiles@[k].deep_view());
                    if k == i as int {
                        assert(profiles@[k]@ == pv);
                    } else {
                        assert(profiles@[k] == vec_before[k]);
                        assert(orig[k] == vec_before[k]@);
                    }
                }
                assert(new_deep =~= expect);
                assert(spec_upsert(orig, pv) == expect);
            }
            return ;
        }
        proof {
            assert(orig.skip(i as int).drop_first() =~= orig.skip(i as int + 1));
        }
        i += 1;
    }
    proof {
        assert(orig.skip(n as int) =~= Seq::<ProfileModel>::empty());
        assert(spec_index_of_name(orig, nm) is None);
    }
    let ghost pv = p@;
    let ghost vec_before = profiles@;
    profiles.push(p);
    proof {
        let new_deep = profiles.deep_view();
        let expect = orig.push(pv);
        assert forall|k: int| 0 <= k < new_deep.len() implies new_deep[k] == expect[k] by {
            assert(new_deep[k] == profiles@[k].deep_view());
            if k < vec_before.len() {
                assert(profiles@[k] == vec_before[k]);
                assert(orig[k] == vec_before[k]@);
            } else {
                assert(profiles@[k]@ == pv);
            }
        }
        assert(new_deep =~= expect);
    }
}

impl Config {
    /// Builds the configuration model from parsed INI sections.
    #[verifier::loop_isolation(false)]
    pub fn from_sections(sections: &Vec<IniSection>) -> (r: Result<Config, Error>)
        ensures
            match r {
                Ok(c) => spec_parse_config(sections.deep_view()) == Ok::<
                    ConfigModel,
                    Seq<char>,
                >(c@),
                Err(e) => spec_parse_config(sections.deep_view()) matches Err(bad)
                    && e matches Error::Region(s) && s@ == bad,
            },
    {
        let ghost doc = sections.deep_view();
        let default_region: Option<Region> = match find_section(sections, "default") {
            Some(sec) => {
                match pairs_get(&sec.pairs, "region") {
                    Some(rs) => {
                        proof {
                            assert(spec_default_region_value(doc) == Some(rs@));
                        }
                        match Region::from_name(rs.as_str()) {
                            Some(rg) => Some(rg),
                            None => {
                                proof {
                                    assert(spec_region_from_name(rs@) is None);
                                    assert(spec_parse_config(doc) == Err::<
                                        ConfigModel,
                                        Seq<char>,
                                    >(rs@));
                                }
                                return Err(Error::Region(rs.clone()));
                            },
                        }
                    },
                    None => None,
                }
            },
            None => None,
        };
        let mut profiles: Vec<ConfigProfile> = Vec::new();
        let n = sections.len();
        let mut i: usize = 0;
        proof {
            assert(doc.take(0) =~= Seq::<SectionModel>::empty());
            assert(profiles.deep_view() =~= Seq::<ProfileModel>::empty());
        }
        while i < n
            invariant
                i <= n == sections.len(),
                doc == sections.deep_view(),
                spec_build_profiles(doc.take(i as int)) == Ok::<
                    Seq<ProfileModel>,
                    Seq<char>,
                >(profiles.deep_view()),
            decreases n - i,
        {
            proof {
                assert(doc.take(i as int + 1).drop_last() =~= doc.take(i as int));
                assert(doc.take(i as int + 1).last() == doc[i as int]);
                assert(doc[i as int] == sections[i as int]@);
            }
            let sec = &sections[i];
            match &sec.name {
                None => {},
                Some(sec_name) => {
                    match get_profile_name_from_section_name(sec_name.as_str()) {
                        None => {},
                        Some(pname) => {
                            let region: Option<Region> = match pairs_get(&sec.pairs, "region") {
                                Some(rs) => {
                                    match Region::from_name(rs.as_str()) {
                                        Some(rg) => Some(rg),
                                        None => {
                                            proof {
                                                assert(spec_profile_of_section(doc[i as int])
                                                    == Some(Err::<ProfileModel, Seq<char>>(rs@)));
                                                assert(spec_build_profiles(doc.take(i as int + 1))
                                                    is Err);
                                                lemma_build_err_extends(doc, i as int + 1);
                                            }
                                            return Err(Error::Region(rs.clone()));
                                        },
                                    }
                                },
                                None => None,
                            };
                            let role_arn = clone_opt_ref(pairs_get(&sec.pairs, "role_arn"));
                            let source_profile = clone_opt_ref(
                                pairs_get(&sec.pairs, "source_profile"),
                            );
                            let p = ConfigProfile { name: pname, role_arn, source_profile, region };
                            proof {
                                assert(spec_profile_of_section(doc[i as int]) == Some(Ok::<
                                    ProfileModel,
                                    Seq<char>,
                                >(p@)));
                            }
                            upsert_profile(&mut profiles, p);
                        },
                    }
                },
            }
            i += 1;
        }
        proof {
            assert(doc.take(n as int) =~= doc);
        }
        Ok(Config { default_region, profiles })
    }

    /// Parses configuration text: INI parsing first, then the section model.
    pub fn load_from_str(text: &str) -> (r: Result<Config, Error>)
        ensures
            ini_doc_of(text@) is None ==> (r matches Err(e) && e matches Error::Ini(_)),
            ini_doc_of(text@) matches Some(doc) ==> match r {
                Ok(c) => spec_parse_config(doc) == Ok::<ConfigModel, Seq<char>>(c@),
                Err(e) => spec_parse_config(doc) matches Err(bad) && e matches Error::Region(s)
                    && s@ == bad,
            },
    {
        match parse_ini_text(text) {
            None => Err(Error::Ini("the text is not valid INI".to_owned())),
            Some(sections) => Config::from_sections(&sections),
        }
    }

    /// The first profile carrying the given name, if any.
    #[verifier::loop_isolation(false)]
    pub fn find_profile<'a>(&'a self, name: &str) -> (r: Option<&'a ConfigProfile>)
        ensures
            match spec_index_of_name(self@.profiles, name@) {
                Some(i) => r matches Some(p) && p@ == self@.profiles[i],
                None => r is None,
            },
    {
        let ghost ps = self@.profiles;
        let n = self.profiles.len();
        let mut i: usize = 0;
        proof {
            assert(ps.skip(0) =~= ps);
            assert(spec_shift_index(spec_index_of_name(ps, name@), 0) == spec_index_of_name(
                ps,
                name@,
            ));
        }
        while i < n
            invariant
                i <= n == self.profiles.len(),
                ps == self@.profiles,
                spec_index_of_name(ps, name@) == spec_shift_index(
                    spec_index_of_name(ps.skip(i as int), name@),
                    i as int,
                ),
            decreases n - i,
        {
            proof {
                assert(ps.skip(i as int)[0] == ps[i as int]);
                assert(ps[i as int] == self.profiles[i as int]@);
            }
            if str_eq(self.profiles[i].name.as_str(), name) {
                proof {
                    assert(spec_index_of_name(ps.skip(i as int), name@) == Some(0int));
                }
                return Some(&self.profiles[i]);
            }
            proof {
                assert(ps.skip(i as int).drop_first() =~= ps.skip(i as int + 1));
            }
            i += 1;
        }
        proof {
            assert(ps.skip(n as int) =~= Seq::<ProfileModel>::empty());
        }
        None
    }
}



/// The names of the profiles of both files, credentials file first, each in
/// document order, kept as they come (duplicates included).
#[verifier::loop_isolation(false)]
pub fn list_profile_names(credentials: &Config, config: &Config) -> (r: Vec<String>)
    ensures
        r.deep_view() == credentials@.profiles.map_values(|p: ProfileModel| p.name)
            + config@.profiles.map_values(|p: ProfileModel| p.name),
{
    let ghost first = credentials@.profiles.map_values(|p: ProfileModel| p.name);
    let ghost second = config@.profiles.map_values(|p: ProfileModel| p.name);
    let mut r: Vec<String> = Vec::new();
    let n1 = credentials.profiles.len();
    let mut i: usize = 0;
    proof {
        assert(r.deep_view() =~= first.take(0));
    }
    while i < n1
        invariant
            i <= n1 == credentials.profiles.len(),
            first == credentials@.profiles.map_values(|p: ProfileModel| p.name),
            r.deep_view() == first.take(i as int),
        decreases n1 - i,
    {
        let ghost before = r.deep_view();
        r.push(credentials.profiles[i].name.clone());
        proof {
            let d = r.deep_view();
            let expect = first.take(i as int + 1);
            assert forall|k: int| 0 <= k < d.len() implies d[k] == expect[k] by {
                if k < i as int {
                    assert(d[k] == before[k]);
                } else {
                    assert(r@[k] == credentials.profiles[i as int].name);
                    assert(expect[k] == credentials@.profiles[i as int].name);
                }
            }
            assert(d =~= expect);
        }
        i += 1;
    }
    let n2 = config.profiles.len();
    let mut j: usize = 0;
    proof {
        assert(first.take(n1 as int) =~= first);
        assert(r.deep_view() =~= first + second.take(0));
    }
    while j < n2
        invariant
            j <= n2 == config.profiles.len(),
            first == credentials@.profiles.map_values(|p: ProfileModel| p.name),
            second == config@.profiles.map_values(|p: ProfileModel| p.name),
            r.deep_view() == first + second.take(j as int),
        decreases n2 - j,
    {
        let ghost before = r.deep_view();
        r.push(config.profiles[j].name.clone());
        proof {
            let d = r.deep_view();
            let expect = first + second.take(j as int + 1);
            assert forall|k: int| 0 <= k < d.len() implies d[k] == expect[k] by {
                if k < before.len() {
                    assert(d[k] == before[k]);
                } else {
                    assert(r@[k] == config.profiles[j as int].name);
                    assert(expect[k] == config@.profiles[j as int].name);
                }
            }
            assert(d =~= expect);
        }
        j += 1;
    }
    proof {
        assert(first + second.take(n2 as int) =~= first + second);
    }
    r
}

/// A found position lies in the sequence and carries the name.
proof fn lemma_index_of_name_in_bounds(ps: Seq<ProfileModel>, name: Seq<char>)
    ensures
        spec_index_of_name(ps, name) matches Some(i) ==> 0 <= i < ps.len() && ps[i].name == name,
    decreases ps.len(),
{
    if ps.len() > 0 && ps[0].name != name {
        lemma_index_of_name_in_bounds(ps.drop_first(), name);
    }
}

/// A missing position means no profile carries the name.
proof fn lemma_index_of_name_none(ps: Seq<ProfileModel>, name: Seq<char>)
    ensures
        spec_index_of_name(ps, name) is None <==> (forall|k: int|
            0 <= k < ps.len() ==> (#[trigger] ps[k]).name != name),
    decreases ps.len(),
{
    if ps.len() > 0 {
        lemma_index_of_name_none(ps.drop_first(), name);
        assert forall|k: int| 0 <= k < ps.drop_first().len() implies #[trigger] ps.drop_first()[k]
            == ps[k + 1] by {}
        if ps[0].name != name && spec_index_of_name(ps.drop_first(), name) is None {
            assert forall|k: int| 0 <= k < ps.len() implies (#[trigger] ps[k]).name != name by {
                if k > 0 {
                    assert(ps[k] == ps.drop_first()[k - 1]);
                }
            }
        }
    }
}

/// Pairwise distinct names stay pairwise distinct under an upsert.
proof fn lemma_upsert_keeps_distinct(ps: Seq<ProfileModel>, p: ProfileModel)
    requires
        forall|i: int, j: int| 0 <= i < j < ps.len() ==> ps[i].name != ps[j].name,
    ensures
        forall|i: int, j: int|
            0 <= i < j < spec_upsert(ps, p).len() ==> spec_upsert(ps, p)[i].name != spec_upsert(
                ps,
                p,
            )[j].name,
{
    let out = spec_upsert(ps, p);
    match spec_index_of_name(ps, p.name) {
        Some(n) => {
            lemma_index_of_name_in_bounds(ps, p.name);
            assert forall|i: int, j: int| 0 <= i < j < out.len() implies out[i].name
                != out[j].name by {
                assert(out[i] == if i == n {
                    p
                } else {
                    ps[i]
                });
                assert(out[j] == if j == n {
                    p
                } else {
                    ps[j]
                });
                assert(ps[n].name == p.name);
            }
        },
        None => {
            lemma_index_of_name_none(ps, p.name);
            assert forall|i: int, j: int| 0 <= i < j < out.len() implies out[i].name
                != out[j].name by {
                if j == ps.len() {
                    assert(out[j] == p);
                    assert(out[i] == ps[i]);
                } else {
                    assert(out[i] == ps[i]);
                    assert(out[j] == ps[j]);
                }
            }
        },
    }
}

/// The profile mapping of a parsed document is keyed by name: its profiles
/// carry pairwise distinct names.
pub proof fn lemma_profile_names_unique(doc: Seq<SectionModel>, ps: Seq<ProfileModel>)
    requires
        spec_build_profiles(doc) == Ok::<Seq<ProfileModel>, Seq<char>>(ps),
    ensures
        forall|i: int, j: int| 0 <= i < j < ps.len() ==> ps[i].name != ps[j].name,
    decreases doc.len(),
{
    if doc.len() > 0 {
        let front = doc.drop_last();
        let ps0 = spec_build_profiles(front)->Ok_0;
        lemma_profile_names_unique(front, ps0);
        match spec_profile_of_section(doc.last()) {
            None => {},
            Some(Ok(p)) => {
                lemma_upsert_keeps_distinct(ps0, p);
            },
            Some(Err(_)) => {
                assert(false);
            },
        }
    }
}

/// Every profile of a parsed document is named by some section of the
/// document under the naming rules.
pub proof fn lemma_profile_names_come_from_sections(
    doc: Seq<SectionModel>,
    ps: Seq<ProfileModel>,
    k: int,
)
    requires
        spec_build_profiles(doc) == Ok::<Seq<ProfileModel>, Seq<char>>(ps),
        0 <= k < ps.len(),
    ensures
        exists|j: int|
            0 <= j < doc.len() && ((#[trigger] doc[j].0) matches Some(n) && spec_profile_name(n)
                == Some(ps[k].name)),
    decreases doc.len(),
{
    let front = doc.drop_last();
    let ps0 = spec_build_profiles(front)->Ok_0;
    match spec_profile_of_section(doc.last()) {
        None => {
            lemma_profile_names_come_from_sections(front, ps, k);
            let j = choose|j: int|
                0 <= j < front.len() && ((#[trigger] front[j].0) matches Some(n)
                    && spec_profile_name(n) == Some(ps[k].name));
            assert(doc[j].0 == front[j].0);
        },
        Some(Ok(p)) => {
            assert(ps == spec_upsert(ps0, p));
            if ps[k] == p {
                let last = doc.len() - 1;
                assert(doc[last].0 matches Some(n) && spec_profile_name(n) == Some(p.name));
            } else {
                match spec_index_of_name(ps0, p.name) {
                    Some(i) => {
                        lemma_index_of_name_in_bounds(ps0, p.name);
                        assert(ps == ps0.update(i, p));
                        assert(k != i);
                        assert(ps[k] == ps0[k]);
                        lemma_profile_names_come_from_sections(front, ps0, k);
                        let j = choose|j: int|
                            0 <= j < front.len() && ((#[trigger] front[j].0) matches Some(n)
                                && spec_profile_name(n) == Some(ps0[k].name));
                        assert(doc[j].0 == front[j].0);
                    },
                    None => {
                        assert(ps == ps0.push(p));
                        if k < ps0.len() {
                            assert(ps[k] == ps0[k]);
                            lemma_profile_names_come_from_sections(front, ps0, k);
                            let j = choose|j: int|
                                0 <= j < front.len() && ((#[trigger] front[j].0) matches Some(n)
                                    && spec_profile_name(n) == Some(ps0[k].name));
                            assert(doc[j].0 == front[j].0);
                        } else {
                            assert(ps[k] == p);
                        }
                    },
                }
            }
        },
        Some(Err(_)) => {
            assert(false);
        },
    }
}

/// The naming rules themselves: `default` yields no profile, a
/// `profile `-prefixed name yields the rest of the name, anything else
/// yields itself.
pub proof fn lemma_section_naming(section: Seq<char>)
    ensures
        section == "default"@ ==> spec_profile_name(section) is None,
        (section.len() >= 8 && section.subrange(0, 8) == "profile "@) ==> spec_profile_name(
            section,
        ) == Some(section.skip(8)),
        !(section.len() >= 8 && section.subrange(0, 8) == "profile "@) && section != "default"@
            ==> spec_profile_name(section) == Some(section),
{
    reveal_strlit("default");
    reveal_strlit("profile ");
}

/// A section named exactly `default` never appears as a profile key: a
/// profile named `default` can only arise from a section whose name is
/// something else (the `profile `-prefixed form).
pub proof fn lemma_default_section_is_never_a_profile(doc: Seq<SectionModel>, ps: Seq<ProfileModel>, k: int)
    requires
        spec_build_profiles(doc) == Ok::<Seq<ProfileModel>, Seq<char>>(ps),
        0 <= k < ps.len(),
        ps[k].name == "default"@,
    ensures
        exists|j: int|
            0 <= j < doc.len() && ((#[trigger] doc[j].0) matches Some(n) && spec_profile_name(n)
                == Some("default"@) && n != "default"@),
{
    lemma_profile_names_come_from_sections(doc, ps, k);
    let j = choose|j: int|
        0 <= j < doc.len() && ((#[trigger] doc[j].0) matches Some(n) && spec_profile_name(n)
            == Some(ps[k].name));
    let n = doc[j].0->0;
    lemma_section_naming(n);
    assert(n != "default"@);
}

} // verus!
