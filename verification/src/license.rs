//! The licences that the library knows, and the text of each.
//!
//! A licence's text is made of fixed parts with the year, the authors and
//! what else the licence names between them. The library holds the fixed
//! parts of three licences; those of the others are handed in by the caller.

use crate::author::{Author, AuthorView};
use crate::error::{CliError, CliErrorView};
use crate::manifest::{PackageInfo, PackageInfoView};
use crate::resolve::{
    get_info, info_of, nothing_known, warnings_of, RequirementMask, Sources, SourcesView,
};
use crate::text::{decimal, decimal_text, join, joined, same_text};
use vstd::prelude::*;
use vstd::string::StringExecFns;

verus! {

/// A licence that the library knows.
#[derive(Clone, Copy, Debug, PartialEq, Eq, Structural)]
pub enum LicenseKind {
    /// Academic Free License.
    Afl,
    /// GNU Affero General Public License v3.0.
    Agpl,
    /// Apache License 2.0.
    ApacheTwo,
    /// Artistic License 2.0.
    Art,
    /// Boost Software License 1.0.
    Boost,
    /// BSD 3-Clause Clear License.
    BsdClear,
    /// BSD 4-Clause License.
    BsdFour,
    /// BSD 3-Clause License.
    BsdThree,
    /// BSD 2-Clause License.
    BsdTwo,
    /// BSD Zero Clause License.
    BsdZero,
    /// Creative Commons Attribution 4.0 International.
    Cc,
    /// Creative Commons Attribution Share Alike 4.0 International.
    CcSa,
    /// Creative Commons Zero v1.0 Universal.
    CcZero,
    /// CeCILL Free Software License Agreement v2.1.
    Cecill,
    /// Educational Community License v2.0.
    Ecl,
    /// Eclipse Public License 1.0.
    EclipseOne,
    /// Eclipse Public License 2.0.
    EclipseTwo,
    /// European Union Public License 1.1.
    EuOne,
    /// European Union Public License 1.2.
    EuTwo,
    /// GNU Free Documentation License v1.3.
    Fdl,
    /// GNU General Public License v3.0.
    GplThree,
    /// GNU General Public License v2.0.
    GplTwo,
    /// ISC License.
    Isc,
    /// LaTeX Project Public License v1.3c.
    Latex,
    /// GNU Lesser General Public License v3.0.
    LgplThree,
    /// GNU Lesser General Public License v2.1.
    LgplTwo,
    /// Microsoft Public License.
    Micpl,
    /// MIT License.
    Mit,
    /// MIT No Attribution.
    MitNa,
    /// Mozilla Public License 2.0.
    Mozpl,
    /// Microsoft Reciprocal License.
    Mrl,
    /// Mulan Permissive Software License, Version 2.
    Mulpl,
    /// University of Illinois/NCSA Open Source License.
    Ncsa,
    /// Open Data Commons Open Database License v1.0.
    Odl,
    /// SIL Open Font License 1.1.
    Ofl,
    /// Open Software License 3.0.
    Osl,
    /// PostgreSQL License.
    Postgres,
    /// The Unlicense.
    Unl,
    /// Universal Permissive License v1.0.
    Upl,
    /// Vim License.
    Vim,
    /// zlib License.
    Zlib,
}

/// What the text of a licence names.
#[derive(Clone, Copy, Debug, PartialEq, Eq, Structural)]
pub enum Wants {
    /// Nothing: the text is the same for every project.
    Nothing,
    /// The year and the authors.
    Authors,
    /// The year, the authors, the project's name and its address.
    Project,
    /// The year, the authors and their emails.
    Emails,
}

/// The text of the MIT License before the year.
pub const MIT_HEAD: &'static str = "MIT License\
    \n\
    \nCopyright (c) ";

/// The text of the MIT License after the authors.
pub const MIT_BODY: &'static str = "\
    \n\
    \nPermission is hereby granted, free of charge, to any person obtaining a copy\
    \nof this software and associated documentation files (the \"Software\"), to deal\
    \nin the Software without restriction, including without limitation the rights\
    \nto use, copy, modify, merge, publish, distribute, sublicense, and/or sell\
    \ncopies of the Software, and to permit persons to whom the Software is\
    \nfurnished to do so, subject to the following conditions:\
    \n\
    \nThe above copyright notice and this permission notice shall be included in all\
    \ncopies or substantial portions of the Software.\
    \n\
    \nTHE SOFTWARE IS PROVIDED \"AS IS\", WITHOUT WARRANTY OF ANY KIND, EXPRESS OR\
    \nIMPLIED, INCLUDING BUT NOT LIMITED TO THE WARRANTIES OF MERCHANTABILITY,\
    \nFITNESS FOR A PARTICULAR PURPOSE AND NONINFRINGEMENT. IN NO EVENT SHALL THE\
    \nAUTHORS OR COPYRIGHT HOLDERS BE LIABLE FOR ANY CLAIM, DAMAGES OR OTHER\
    \nLIABILITY, WHETHER IN AN ACTION OF CONTRACT, TORT OR OTHERWISE, ARISING FROM,\
    \nOUT OF OR IN CONNECTION WITH THE SOFTWARE OR THE USE OR OTHER DEALINGS IN THE\
    \nSOFTWARE.";

/// The text of the BSD 2-Clause License before the year.
pub const BSD_TWO_HEAD: &'static str = "BSD 2-Clause License\
    \n\
    \nCopyright (c) ";

/// The text of the BSD 2-Clause License after the authors.
pub const BSD_TWO_BODY: &'static str = "\
    \n\
    \nRedistribution and use in source and binary forms, with or without\
    \nmodification, are permitted provided that the following conditions are met:\
    \n\
    \n1. Redistributions of source code must retain the above copyright notice, this\
    \nlist of conditions and the following disclaimer.\
    \n\
    \n2. Redistributions in binary form must reproduce the above copyright notice,\
    \nthis list of conditions and the following disclaimer in the documentation\
    \nand/or other materials provided with the distribution.\
    \n\
    \nTHIS SOFTWARE IS PROVIDED BY THE COPYRIGHT HOLDERS AND CONTRIBUTORS \"AS IS\"\
    \nAND ANY EXPRESS OR IMPLIED WARRANTIES, INCLUDING, BUT NOT LIMITED TO, THE\
    \nIMPLIED WARRANTIES OF MERCHANTABILITY AND FITNESS FOR A PARTICULAR PURPOSE ARE\
    \nDISCLAIMED. IN NO EVENT SHALL THE COPYRIGHT HOLDER OR CONTRIBUTORS BE LIABLE\
    \nFOR ANY DIRECT, INDIRECT, INCIDENTAL, SPECIAL, EXEMPLARY, OR CONSEQUENTIAL\
    \nDAMAGES (INCLUDING, BUT NOT LIMITED TO, PROCUREMENT OF SUBSTITUTE GOODS OR\
    \nSERVICES; LOSS OF USE, DATA, OR PROFITS; OR BUSINESS INTERRUPTION) HOWEVER\
    \nCAUSED AND ON ANY THEORY OF LIABILITY, WHETHER IN CONTRACT, STRICT LIABILITY,\
    \nOR TORT (INCLUDING NEGLIGENCE OR OTHERWISE) ARISING IN ANY WAY OUT OF THE USE\
    \nOF THIS SOFTWARE, EVEN IF ADVISED OF THE POSSIBILITY OF SUCH DAMAGE.";

/// The text of the NCSA License before the year.
pub const NCSA_HEAD: &'static str = "University of Illinois/NCSA Open Source License\
    \n\
    \nCopyright (c) ";

/// The text of the NCSA License between the authors and the project's name.
pub const NCSA_RIGHTS: &'static str = ". All rights reserved.\
    \n\
    \nDeveloped by: ";

/// What begins the second and the third line under "Developed by" in the
/// NCSA License.
pub const NCSA_NEXT: &'static str = "\
    \n              ";

/// The text of the NCSA License after the project's address. Its third
/// condition names nobody: the words in square brackets stand as they are.
pub const NCSA_BODY: &'static str = "\
    \n\
    \nPermission is hereby granted, free of charge, to any person\
    \nobtaining a copy of this software and associated documentation files\
    \n(the \"Software\"), to deal with the Software without restriction,\
    \nincluding without limitation the rights to use, copy, modify, merge,\
    \npublish, distribute, sublicense, and/or sell copies of the Software,\
    \nand to permit persons to whom the Software is furnished to do so,\
    \nsubject to the following conditions:\
    \n\
    \n* Redistributions of source code must retain the above copyright notice,\
    \n    this list of conditions and the following disclaimers.\
    \n\
    \n* Redistributions in binary form must reproduce the above copyright\
    \n    notice, this list of conditions and the following disclaimers in the\
    \n    documentation and/or other materials provided with the distribution.\
    \n\
    \n* Neither the names of [fullname], [project] nor the names of its\
    \n    contributors may be used to endorse or promote products derived from\
    \n    this Software without specific prior written permission.\
    \n\
    \nTHE SOFTWARE IS PROVIDED \"AS IS\", WITHOUT WARRANTY OF ANY KIND, EXPRESS\
    \nOR IMPLIED, INCLUDING BUT NOT LIMITED TO THE WARRANTIES OF MERCHANTABILITY,\
    \nFITNESS FOR A PARTICULAR PURPOSE AND NONINFRINGEMENT. IN NO EVENT SHALL THE\
    \nCONTRIBUTORS OR COPYRIGHT HOLDERS BE LIABLE FOR ANY CLAIM, DAMAGES OR OTHER\
    \nLIABILITY, WHETHER IN AN ACTION OF CONTRACT, TORT OR OTHERWISE, ARISING FROM,\
    \nOUT OF OR IN CONNECTION WITH THE SOFTWARE OR THE USE OR OTHER DEALINGS WITH\
    \nTHE SOFTWARE.";

/// The licence that an identifier of the command line names.
pub open spec fn kind_of(license: Seq<char>) -> Option<LicenseKind> {
    if license == "afl"@ {
        Some(LicenseKind::Afl)
    }     else if license == "agpl"@ {
        Some(LicenseKind::Agpl)
    }     else if license == "apache_two"@ {
        Some(LicenseKind::ApacheTwo)
    }     else if license == "art"@ {
        Some(LicenseKind::Art)
    }     else if license == "boost"@ {
        Some(LicenseKind::Boost)
    }     else if license == "bsd_clear"@ {
        Some(LicenseKind::BsdClear)
    }     else if license == "bsd_four"@ {
        Some(LicenseKind::BsdFour)
    }     else if license == "bsd_three"@ {
        Some(LicenseKind::BsdThree)
    }     else if license == "bsd_two"@ {
        Some(LicenseKind::BsdTwo)
    }     else if license == "bsd_zero"@ {
        Some(LicenseKind::BsdZero)
    }     else if license == "cc"@ {
        Some(LicenseKind::Cc)
    }     else if license == "cc_sa"@ {
        Some(LicenseKind::CcSa)
    }     else if license == "cc_zero"@ {
        Some(LicenseKind::CcZero)
    }     else if license == "cecill"@ {
        Some(LicenseKind::Cecill)
    }     else if license == "ecl"@ {
        Some(LicenseKind::Ecl)
    }     else if license == "eclipse_one"@ {
        Some(LicenseKind::EclipseOne)
    }     else if license == "eclipse_two"@ {
        Some(LicenseKind::EclipseTwo)
    }     else if license == "eu_one"@ {
        Some(LicenseKind::EuOne)
    }     else if license == "eu_two"@ {
        Some(LicenseKind::EuTwo)
    }     else if license == "fdl"@ {
        Some(LicenseKind::Fdl)
    }     else if license == "gpl_three"@ {
        Some(LicenseKind::GplThree)
    }     else if license == "gpl_two"@ {
        Some(LicenseKind::GplTwo)
    }     else if license == "isc"@ {
        Some(LicenseKind::Isc)
    }     else if license == "latex"@ {
        Some(LicenseKind::Latex)
    }     else if license == "lgpl_three"@ {
        Some(LicenseKind::LgplThree)
    }     else if license == "lgpl_two"@ {
        Some(LicenseKind::LgplTwo)
    }     else if license == "micpl"@ {
        Some(LicenseKind::Micpl)
    }     else if license == "mit"@ {
        Some(LicenseKind::Mit)
    }     else if license == "mit_na"@ {
        Some(LicenseKind::MitNa)
    }     else if license == "mozpl"@ {
        Some(LicenseKind::Mozpl)
    }     else if license == "mrl"@ {
        Some(LicenseKind::Mrl)
    }     else if license == "mulpl"@ {
        Some(LicenseKind::Mulpl)
    }     else if license == "ncsa"@ {
        Some(LicenseKind::Ncsa)
    }     else if license == "odl"@ {
        Some(LicenseKind::Odl)
    }     else if license == "ofl"@ {
        Some(LicenseKind::Ofl)
    }     else if license == "osl"@ {
        Some(LicenseKind::Osl)
    }     else if license == "postgres"@ {
        Some(LicenseKind::Postgres)
    }     else if license == "unl"@ {
        Some(LicenseKind::Unl)
    }     else if license == "upl"@ {
        Some(LicenseKind::Upl)
    }     else if license == "vim"@ {
        Some(LicenseKind::Vim)
    }     else if license == "zlib"@ {
        Some(LicenseKind::Zlib)
    } else {
        None
    }
}

/// The identifier of the command line that names a licence.
pub open spec fn identifier_of(kind: LicenseKind) -> Seq<char> {
    match kind {
        LicenseKind::Afl => "afl"@,
        LicenseKind::Agpl => "agpl"@,
        LicenseKind::ApacheTwo => "apache_two"@,
        LicenseKind::Art => "art"@,
        LicenseKind::Boost => "boost"@,
        LicenseKind::BsdClear => "bsd_clear"@,
        LicenseKind::BsdFour => "bsd_four"@,
        LicenseKind::BsdThree => "bsd_three"@,
        LicenseKind::BsdTwo => "bsd_two"@,
        LicenseKind::BsdZero => "bsd_zero"@,
        LicenseKind::Cc => "cc"@,
        LicenseKind::CcSa => "cc_sa"@,
        LicenseKind::CcZero => "cc_zero"@,
        LicenseKind::Cecill => "cecill"@,
        LicenseKind::Ecl => "ecl"@,
        LicenseKind::EclipseOne => "eclipse_one"@,
        LicenseKind::EclipseTwo => "eclipse_two"@,
        LicenseKind::EuOne => "eu_one"@,
        LicenseKind::EuTwo => "eu_two"@,
        LicenseKind::Fdl => "fdl"@,
        LicenseKind::GplThree => "gpl_three"@,
        LicenseKind::GplTwo => "gpl_two"@,
        LicenseKind::Isc => "isc"@,
        LicenseKind::Latex => "latex"@,
        LicenseKind::LgplThree => "lgpl_three"@,
        LicenseKind::LgplTwo => "lgpl_two"@,
        LicenseKind::Micpl => "micpl"@,
        LicenseKind::Mit => "mit"@,
        LicenseKind::MitNa => "mit_na"@,
        LicenseKind::Mozpl => "mozpl"@,
        LicenseKind::Mrl => "mrl"@,
        LicenseKind::Mulpl => "mulpl"@,
        LicenseKind::Ncsa => "ncsa"@,
        LicenseKind::Odl => "odl"@,
        LicenseKind::Ofl => "ofl"@,
        LicenseKind::Osl => "osl"@,
        LicenseKind::Postgres => "postgres"@,
        LicenseKind::Unl => "unl"@,
        LicenseKind::Upl => "upl"@,
        LicenseKind::Vim => "vim"@,
        LicenseKind::Zlib => "zlib"@,
    }
}

/// The identifier under which the SPDX list knows a licence.
pub open spec fn spdx_of(kind: LicenseKind) -> Seq<char> {
    match kind {
        LicenseKind::Afl => "AFL-3.0"@,
        LicenseKind::Agpl => "AGPL-3.0-only"@,
        LicenseKind::ApacheTwo => "Apache-2.0"@,
        LicenseKind::Art => "Artistic-2.0"@,
        LicenseKind::Boost => "BSL-1.0"@,
        LicenseKind::BsdClear => "BSD-3-Clause-Clear"@,
        LicenseKind::BsdFour => "BSD-4-Clause"@,
        LicenseKind::BsdThree => "BSD-3-Clause"@,
        LicenseKind::BsdTwo => "BSD-2-Clause"@,
        LicenseKind::BsdZero => "0BSD"@,
        LicenseKind::Cc => "CC-BY-4.0"@,
        LicenseKind::CcSa => "CC-BY-SA-4.0"@,
        LicenseKind::CcZero => "CC0-1.0"@,
        LicenseKind::Cecill => "CECILL-2.1"@,
        LicenseKind::Ecl => "ECL-2.0"@,
        LicenseKind::EclipseOne => "EPL-1.0"@,
        LicenseKind::EclipseTwo => "EPL-2.0"@,
        LicenseKind::EuOne => "EUPL-1.1"@,
        LicenseKind::EuTwo => "EUPL-1.2"@,
        LicenseKind::Fdl => "FDL-1.3"@,
        LicenseKind::GplThree => "GPL-3.0-only"@,
        LicenseKind::GplTwo => "GPL-2.0-only"@,
        LicenseKind::Isc => "ISC"@,
        LicenseKind::Latex => "LPPL-1.3c"@,
        LicenseKind::LgplThree => "LGPL-3.0-only"@,
        LicenseKind::LgplTwo => "LGPL-2.1-only"@,
        LicenseKind::Micpl => "MICROSOFT-PL"@,
        LicenseKind::Mit => "MIT"@,
        LicenseKind::MitNa => "MIT-0"@,
        LicenseKind::Mozpl => "MPL-2.0"@,
        LicenseKind::Mrl => "MIROSL"@,
        LicenseKind::Mulpl => "MULPL-1.0"@,
        LicenseKind::Ncsa => "NCSA"@,
        LicenseKind::Odl => "ODbL-1.0"@,
        LicenseKind::Ofl => "OFL-1.1"@,
        LicenseKind::Osl => "OSL-3.0"@,
        LicenseKind::Postgres => "PostgreSQL"@,
        LicenseKind::Unl => "Unlicense"@,
        LicenseKind::Upl => "UPL-1.0"@,
        LicenseKind::Vim => "Vim"@,
        LicenseKind::Zlib => "Zlib"@,
    }
}

/// What the text of a licence names.
pub open spec fn wants_of(kind: LicenseKind) -> Wants {
    match kind {
        LicenseKind::BsdClear | LicenseKind::BsdFour | LicenseKind::BsdThree | LicenseKind::BsdTwo | LicenseKind::BsdZero | LicenseKind::Isc | LicenseKind::Mit | LicenseKind::MitNa | LicenseKind::Postgres | LicenseKind::Upl | LicenseKind::Zlib => Wants::Authors,
        LicenseKind::Ncsa => Wants::Project,
        LicenseKind::Ofl => Wants::Emails,
        _ => Wants::Nothing,
    }
}

/// What a licence needs to know besides the authors' names; `None` for a
/// licence that names nothing, for which nothing is resolved.
pub open spec fn needs_of(kind: LicenseKind) -> Option<RequirementMask> {
    match wants_of(kind) {
        Wants::Nothing => None,
        Wants::Authors => Some(RequirementMask { project: false, url: false, email: false }),
        Wants::Project => Some(RequirementMask { project: true, url: true, email: false }),
        Wants::Emails => Some(RequirementMask { project: false, url: false, email: true }),
    }
}

/// The fixed parts of a licence's text that the library holds itself.
pub open spec fn own_parts(kind: LicenseKind) -> Option<Seq<Seq<char>>> {
    match kind {
        LicenseKind::Mit => Some(seq![MIT_HEAD@, " "@, MIT_BODY@]),
        LicenseKind::BsdTwo => Some(seq![BSD_TWO_HEAD@, ", "@, BSD_TWO_BODY@]),
        LicenseKind::Ncsa => Some(
            seq![NCSA_HEAD@, " "@, NCSA_RIGHTS@, NCSA_NEXT@, NCSA_NEXT@, NCSA_BODY@],
        ),
        _ => None,
    }
}

/// The fixed parts of a licence's text: the library's own where it holds
/// them, else those that the caller handed in.
pub open spec fn fixed_parts(kind: LicenseKind, handed: Seq<Seq<char>>) -> Seq<Seq<char>> {
    match own_parts(kind) {
        Some(parts) => parts,
        None => handed,
    }
}

/// The names of the authors, in order.
pub open spec fn names_in(authors: Seq<AuthorView>) -> Seq<Seq<char>> {
    Seq::new(authors.len(), |i: int| authors[i].name)
}

/// The emails of the authors that have one, in the order of the authors.
pub open spec fn emails_in(authors: Seq<AuthorView>) -> Seq<Seq<char>>
    decreases authors.len(),
{
    if authors.len() == 0 {
        Seq::empty()
    } else {
        match authors.last().email {
            Some(email) => emails_in(authors.drop_last()).push(email),
            None => emails_in(authors.drop_last()),
        }
    }
}

/// An answer as it is written: nothing where there is none.
pub open spec fn written(answer: Option<Seq<char>>) -> Seq<char> {
    match answer {
        Some(text) => text,
        None => Seq::empty(),
    }
}

/// What stands between the fixed parts of a licence's text, in order. The
/// authors are listed by name, and the emails one by one, with a comma and a
/// space between each two. A text that names the project lists the authors
/// a second time, between the project's name and its address.
pub open spec fn fields_of(kind: LicenseKind, year: Seq<char>, info: PackageInfoView) -> Seq<
    Seq<char>,
> {
    let authors = joined(names_in(info.authors), ", "@);
    match wants_of(kind) {
        Wants::Nothing => Seq::empty(),
        Wants::Authors => seq![year, authors],
        Wants::Project => seq![year, authors, written(info.name), authors, written(info.url)],
        Wants::Emails => seq![year, authors, joined(emails_in(info.authors), ", "@)],
    }
}

/// The member of a list at a place, and nothing where the list has ended.
pub open spec fn part_at(list: Seq<Seq<char>>, k: int) -> Seq<char> {
    if 0 <= k < list.len() {
        list[k]
    } else {
        Seq::empty()
    }
}

/// The first `n` parts, each with the field of its place behind it.
pub open spec fn woven_to(parts: Seq<Seq<char>>, fields: Seq<Seq<char>>, n: nat) -> Seq<char>
    decreases n,
{
    if n == 0 {
        Seq::empty()
    } else {
        woven_to(parts, fields, (n - 1) as nat) + part_at(parts, n - 1) + part_at(fields, n - 1)
    }
}

/// Parts and fields in turn: the first part, the first field, the second
/// part, and so on. Where one list ends before the other, the rest of the
/// other follows.
pub open spec fn woven(parts: Seq<Seq<char>>, fields: Seq<Seq<char>>) -> Seq<char> {
    woven_to(
        parts,
        fields,
        if parts.len() >= fields.len() {
            parts.len()
        } else {
            fields.len()
        },
    )
}

/// The text of a licence for a year and a project: its fixed parts with its
/// fields between them.
pub open spec fn license_text(
    kind: LicenseKind,
    year: Seq<char>,
    info: PackageInfoView,
    handed: Seq<Seq<char>>,
) -> Seq<char> {
    woven(fixed_parts(kind, handed), fields_of(kind, year, info))
}

/// How many seconds the library takes a year to have.
pub const YEAR_SECONDS: u64 = 31_534_000;

/// The year of a licence: the one given, else the one that the clock shows.
pub open spec fn year_of(year: Option<Seq<char>>, now: Option<u64>) -> Option<Seq<char>> {
    match year {
        Some(given) => Some(given),
        None => match now {
            Some(seconds) => Some(decimal((seconds / YEAR_SECONDS + 1970) as nat)),
            None => None,
        },
    }
}

/// No year was given and the clock could not be read.
pub open spec fn missing_year() -> CliErrorView {
    CliErrorView::MissingFlag {
        flag: "-y or --year"@,
        reason: "The current year could not be obtained from the system time!"@,
    }
}

/// What is resolved for a licence: nothing for one that names nothing, else
/// what [`get_info`] answers for its needs.
pub open spec fn resolved_for(
    kind: LicenseKind,
    emails: Seq<Seq<char>>,
    names: Seq<Seq<char>>,
    project: Option<Seq<char>>,
    url: Option<Seq<char>>,
    sources: SourcesView,
) -> Result<PackageInfoView, CliErrorView> {
    match needs_of(kind) {
        None => Ok(nothing_known()),
        Some(needs) => info_of(emails, names, project, url, needs, sources),
    }
}

/// What [`get_license`] answers: the licence's text and its SPDX
/// identifier. It fails, in this order, where no year can be had, where the
/// licence is not known, and where the project's data cannot be resolved.
/// `body` holds the fixed parts that the caller handed in.
pub open spec fn license_of(
    license: Seq<char>,
    emails: Seq<Seq<char>>,
    names: Seq<Seq<char>>,
    project: Option<Seq<char>>,
    url: Option<Seq<char>>,
    year: Option<Seq<char>>,
    body: Seq<Seq<char>>,
    sources: SourcesView,
) -> Result<(Seq<char>, Seq<char>), CliErrorView> {
    match year_of(year, sources.now) {
        None => Err(missing_year()),
        Some(y) => match kind_of(license) {
            None => Err(CliErrorView::UnknownLicense { license }),
            Some(kind) => match resolved_for(kind, emails, names, project, url, sources) {
                Err(error) => Err(error),
                Ok(info) => Ok((license_text(kind, y, info, body), spdx_of(kind))),
            },
        },
    }
}

/// The warnings that [`get_license`] leaves: those of the resolution, where
/// it comes to one.
pub open spec fn license_warnings(
    license: Seq<char>,
    emails: Seq<Seq<char>>,
    names: Seq<Seq<char>>,
    project: Option<Seq<char>>,
    url: Option<Seq<char>>,
    year: Option<Seq<char>>,
    sources: SourcesView,
) -> Seq<CliErrorView> {
    match (year_of(year, sources.now), kind_of(license)) {
        (Some(_), Some(kind)) => match needs_of(kind) {
            Some(needs) => warnings_of(emails, names, project, url, needs, sources),
            None => Seq::empty(),
        },
        _ => Seq::empty(),
    }
}

/// An outcome of [`get_license`] as plain sequences.
pub open spec fn license_view(outcome: Result<(String, &'static str), CliError>) -> Result<
    (Seq<char>, Seq<char>),
    CliErrorView,
> {
    match outcome {
        Ok((text, spdx)) => Ok((text@, spdx@)),
        Err(error) => Err(error@),
    }
}

/// Finds the licence that an identifier names.
pub fn license_kind(license: &str) -> (kind: Option<LicenseKind>)
    ensures
        kind == kind_of(license@),
{
    if same_text(license, "afl") {
        Some(LicenseKind::Afl)
    }     else if same_text(license, "agpl") {
        Some(LicenseKind::Agpl)
    }     else if same_text(license, "apache_two") {
        Some(LicenseKind::ApacheTwo)
    }     else if same_text(license, "art") {
        Some(LicenseKind::Art)
    }     else if same_text(license, "boost") {
        Some(LicenseKind::Boost)
    }     else if same_text(license, "bsd_clear") {
        Some(LicenseKind::BsdClear)
    }     else if same_text(license, "bsd_four") {
        Some(LicenseKind::BsdFour)
    }     else if same_text(license, "bsd_three") {
        Some(LicenseKind::BsdThree)
    }     else if same_text(license, "bsd_two") {
        Some(LicenseKind::BsdTwo)
    }     else if same_text(license, "bsd_zero") {
        Some(LicenseKind::BsdZero)
    }     else if same_text(license, "cc") {
        Some(LicenseKind::Cc)
    }     else if same_text(license, "cc_sa") {
        Some(LicenseKind::CcSa)
    }     else if same_text(license, "cc_zero") {
        Some(LicenseKind::CcZero)
    }     else if same_text(license, "cecill") {
        Some(LicenseKind::Cecill)
    }     else if same_text(license, "ecl") {
        Some(LicenseKind::Ecl)
    }     else if same_text(license, "eclipse_one") {
        Some(LicenseKind::EclipseOne)
    }     else if same_text(license, "eclipse_two") {
        Some(LicenseKind::EclipseTwo)
    }     else if same_text(license, "eu_one") {
        Some(LicenseKind::EuOne)
    }     else if same_text(license, "eu_two") {
        Some(LicenseKind::EuTwo)
    }     else if same_text(license, "fdl") {
        Some(LicenseKind::Fdl)
    }     else if same_text(license, "gpl_three") {
        Some(LicenseKind::GplThree)
    }     else if same_text(license, "gpl_two") {
        Some(LicenseKind::GplTwo)
    }     else if same_text(license, "isc") {
        Some(LicenseKind::Isc)
    }     else if same_text(license, "latex") {
        Some(LicenseKind::Latex)
    }     else if same_text(license, "lgpl_three") {
        Some(LicenseKind::LgplThree)
    }     else if same_text(license, "lgpl_two") {
        Some(LicenseKind::LgplTwo)
    }     else if same_text(license, "micpl") {
        Some(LicenseKind::Micpl)
    }     else if same_text(license, "mit") {
        Some(LicenseKind::Mit)
    }     else if same_text(license, "mit_na") {
        Some(LicenseKind::MitNa)
    }     else if same_text(license, "mozpl") {
        Some(LicenseKind::Mozpl)
    }     else if same_text(license, "mrl") {
        Some(LicenseKind::Mrl)
    }     else if same_text(license, "mulpl") {
        Some(LicenseKind::Mulpl)
    }     else if same_text(license, "ncsa") {
        Some(LicenseKind::Ncsa)
    }     else if same_text(license, "odl") {
        Some(LicenseKind::Odl)
    }     else if same_text(license, "ofl") {
        Some(LicenseKind::Ofl)
    }     else if same_text(license, "osl") {
        Some(LicenseKind::Osl)
    }     else if same_text(license, "postgres") {
        Some(LicenseKind::Postgres)
    }     else if same_text(license, "unl") {
        Some(LicenseKind::Unl)
    }     else if same_text(license, "upl") {
        Some(LicenseKind::Upl)
    }     else if same_text(license, "vim") {
        Some(LicenseKind::Vim)
    }     else if same_text(license, "zlib") {
        Some(LicenseKind::Zlib)
    } else {
        None
    }
}

impl LicenseKind {
    /// The identifier under which the SPDX list knows the licence.
    pub fn spdx(self) -> (id: &'static str)
        ensures
            id@ == spdx_of(self),
    {
        match self {
            LicenseKind::Afl => "AFL-3.0",
            LicenseKind::Agpl => "AGPL-3.0-only",
            LicenseKind::ApacheTwo => "Apache-2.0",
            LicenseKind::Art => "Artistic-2.0",
            LicenseKind::Boost => "BSL-1.0",
            LicenseKind::BsdClear => "BSD-3-Clause-Clear",
            LicenseKind::BsdFour => "BSD-4-Clause",
            LicenseKind::BsdThree => "BSD-3-Clause",
            LicenseKind::BsdTwo => "BSD-2-Clause",
            LicenseKind::BsdZero => "0BSD",
            LicenseKind::Cc => "CC-BY-4.0",
            LicenseKind::CcSa => "CC-BY-SA-4.0",
            LicenseKind::CcZero => "CC0-1.0",
            LicenseKind::Cecill => "CECILL-2.1",
            LicenseKind::Ecl => "ECL-2.0",
            LicenseKind::EclipseOne => "EPL-1.0",
            LicenseKind::EclipseTwo => "EPL-2.0",
            LicenseKind::EuOne => "EUPL-1.1",
            LicenseKind::EuTwo => "EUPL-1.2",
            LicenseKind::Fdl => "FDL-1.3",
            LicenseKind::GplThree => "GPL-3.0-only",
            LicenseKind::GplTwo => "GPL-2.0-only",
            LicenseKind::Isc => "ISC",
            LicenseKind::Latex => "LPPL-1.3c",
            LicenseKind::LgplThree => "LGPL-3.0-only",
            LicenseKind::LgplTwo => "LGPL-2.1-only",
            LicenseKind::Micpl => "MICROSOFT-PL",
            LicenseKind::Mit => "MIT",
            LicenseKind::MitNa => "MIT-0",
            LicenseKind::Mozpl => "MPL-2.0",
            LicenseKind::Mrl => "MIROSL",
            LicenseKind::Mulpl => "MULPL-1.0",
            LicenseKind::Ncsa => "NCSA",
            LicenseKind::Odl => "ODbL-1.0",
            LicenseKind::Ofl => "OFL-1.1",
            LicenseKind::Osl => "OSL-3.0",
            LicenseKind::Postgres => "PostgreSQL",
            LicenseKind::Unl => "Unlicense",
            LicenseKind::Upl => "UPL-1.0",
            LicenseKind::Vim => "Vim",
            LicenseKind::Zlib => "Zlib",
        }
    }

    /// What the text of the licence names.
    pub fn wants(self) -> (wants: Wants)
        ensures
            wants == wants_of(self),
    {
        match self {
            LicenseKind::BsdClear | LicenseKind::BsdFour | LicenseKind::BsdThree | LicenseKind::BsdTwo | LicenseKind::BsdZero | LicenseKind::Isc | LicenseKind::Mit | LicenseKind::MitNa | LicenseKind::Postgres | LicenseKind::Upl | LicenseKind::Zlib => Wants::Authors,
            LicenseKind::Ncsa => Wants::Project,
            LicenseKind::Ofl => Wants::Emails,
            _ => Wants::Nothing,
        }
    }

    /// What the licence needs to know besides the authors' names; `None`
    /// for a licence that names nothing.
    pub fn needs(self) -> (needs: Option<RequirementMask>)
        ensures
            needs == needs_of(self),
    {
        match self.wants() {
            Wants::Nothing => None,
            Wants::Authors => Some(RequirementMask { project: false, url: false, email: false }),
            Wants::Project => Some(RequirementMask { project: true, url: true, email: false }),
            Wants::Emails => Some(RequirementMask { project: false, url: false, email: true }),
        }
    }

    /// Whether the library holds the fixed parts of the licence's text
    /// itself. Those of any other licence are handed in by the caller.
    pub fn is_held(self) -> (held: bool)
        ensures
            held == own_parts(self) is Some,
    {
        match self {
            LicenseKind::Mit | LicenseKind::BsdTwo | LicenseKind::Ncsa => true,
            _ => false,
        }
    }
}

/// Lists the names of the authors.
fn author_names(authors: &Vec<Author>) -> (names: Vec<String>)
    ensures
        names.deep_view() == names_in(authors.deep_view()),
{
    let mut names: Vec<String> = Vec::new();
    let mut i: usize = 0;
    while i < authors.len()
        invariant
            i <= authors.len(),
            names.len() == i,
            forall|k: int| 0 <= k < i ==> (#[trigger] names[k])@ == authors[k].name@,
        decreases authors.len() - i,
    {
        names.push(authors[i].name.clone());
        i += 1;
    }
    assert(names.deep_view() =~= names_in(authors.deep_view()));
    names
}

/// Lists the emails of the authors that have one.
fn author_emails(authors: &Vec<Author>) -> (emails: Vec<String>)
    ensures
        emails.deep_view() == emails_in(authors.deep_view()),
{
    let mut emails: Vec<String> = Vec::new();
    let mut i: usize = 0;
    assert(emails.deep_view() =~= emails_in(authors.deep_view().take(0)));
    while i < authors.len()
        invariant
            i <= authors.len(),
            emails.deep_view() == emails_in(authors.deep_view().take(i as int)),
        decreases authors.len() - i,
    {
        let ghost before = emails.deep_view();
        let ghost all = authors.deep_view();
        proof {
            assert(all.take(i + 1).drop_last() =~= all.take(i as int));
            assert(all.take(i + 1).last() == authors[i as int]@);
        }
        if let Some(email) = &authors[i].email {
            emails.push(email.clone());
            assert(emails.deep_view() =~= before.push(email@));
        }
        i += 1;
    }
    assert(authors.deep_view().take(i as int) =~= authors.deep_view());
    emails
}

/// An answer as it is written, and an empty text where there is none.
fn write_answer(answer: &Option<String>) -> (text: String)
    ensures
        text@ == written(answer.deep_view()),
{
    match answer {
        Some(a) => a.clone(),
        None => String::new(),
    }
}

/// The fixed parts that the library holds of a licence's text.
fn held_parts(kind: LicenseKind) -> (parts: Option<Vec<String>>)
    ensures
        parts.deep_view() == own_parts(kind),
{
    match kind {
        LicenseKind::Mit => {
            let mut parts: Vec<String> = Vec::new();
            parts.push(String::from_str(MIT_HEAD));
            parts.push(String::from_str(" "));
            parts.push(String::from_str(MIT_BODY));
            assert(parts.deep_view() =~= seq![MIT_HEAD@, " "@, MIT_BODY@]);
            Some(parts)
        },
        LicenseKind::BsdTwo => {
            let mut parts: Vec<String> = Vec::new();
            parts.push(String::from_str(BSD_TWO_HEAD));
            parts.push(String::from_str(", "));
            parts.push(String::from_str(BSD_TWO_BODY));
            assert(parts.deep_view() =~= seq![BSD_TWO_HEAD@, ", "@, BSD_TWO_BODY@]);
            Some(parts)
        },
        LicenseKind::Ncsa => {
            let mut parts: Vec<String> = Vec::new();
            parts.push(String::from_str(NCSA_HEAD));
            parts.push(String::from_str(" "));
            parts.push(String::from_str(NCSA_RIGHTS));
            parts.push(String::from_str(NCSA_NEXT));
            parts.push(String::from_str(NCSA_NEXT));
            parts.push(String::from_str(NCSA_BODY));
            assert(parts.deep_view() =~= seq![
                NCSA_HEAD@,
                " "@,
                NCSA_RIGHTS@,
                NCSA_NEXT@,
                NCSA_NEXT@,
                NCSA_BODY@,
            ]);
            Some(parts)
        },
        _ => None,
    }
}

/// What stands between the fixed parts of a licence's text.
fn fields(kind: LicenseKind, year: &str, info: &PackageInfo) -> (list: Vec<String>)
    ensures
        list.deep_view() == fields_of(kind, year@, info@),
{
    let mut list: Vec<String> = Vec::new();
    let listed = author_names(&info.authors);
    match kind.wants() {
        Wants::Nothing => {
            assert(list.deep_view() =~= Seq::<Seq<char>>::empty());
        },
        Wants::Authors => {
            list.push(String::from_str(year));
            list.push(join(&listed, ", "));
            assert(list.deep_view() =~= fields_of(kind, year@, info@));
        },
        Wants::Project => {
            list.push(String::from_str(year));
            list.push(join(&listed, ", "));
            list.push(write_answer(&info.name));
            list.push(join(&listed, ", "));
            list.push(write_answer(&info.url));
            assert(list.deep_view() =~= fields_of(kind, year@, info@));
        },
        Wants::Emails => {
            let mailed = author_emails(&info.authors);
            list.push(String::from_str(year));
            list.push(join(&listed, ", "));
            list.push(join(&mailed, ", "));
            assert(list.deep_view() =~= fields_of(kind, year@, info@));
        },
    }
    list
}

/// Puts parts and fields together in turn.
pub fn weave(parts: &Vec<String>, fields: &Vec<String>) -> (text: String)
    ensures
        text@ == woven(parts.deep_view(), fields.deep_view()),
{
    let n: usize = if parts.len() >= fields.len() {
        parts.len()
    } else {
        fields.len()
    };
    let mut text = String::new();
    let mut k: usize = 0;
    while k < n
        invariant
            k <= n,
            text@ == woven_to(parts.deep_view(), fields.deep_view(), k as nat),
        decreases n - k,
    {
        if k < parts.len() {
            text.append(parts[k].as_str());
        }
        if k < fields.len() {
            text.append(fields[k].as_str());
        }
        proof {
            let before = woven_to(parts.deep_view(), fields.deep_view(), k as nat);
            assert(text@ =~= before + part_at(parts.deep_view(), k as int) + part_at(
                fields.deep_view(),
                k as int,
            ));
        }
        k += 1;
    }
    text
}

/// Writes the text of a licence for a year and a project. The fixed parts
/// of the text are the library's own where it holds them, else those handed
/// in.
pub fn fill_license(
    kind: LicenseKind,
    year: &str,
    info: &PackageInfo,
    handed: &Vec<String>,
) -> (text: String)
    ensures
        text@ == license_text(kind, year@, info@, handed.deep_view()),
{
    let between = fields(kind, year, info);
    match held_parts(kind) {
        Some(parts) => weave(&parts, &between),
        None => weave(handed, &between),
    }
}

/// Writes a licence for a project. The year is the one given, else the one
/// that the clock shows. A licence that names nothing is written as it
/// stands. For any other the authors, and the project's name and address
/// or an email where the licence needs them, are resolved as [`get_info`]
/// says. The fixed parts of the text are the library's own where it holds
/// them, else those of `body`. Returns the licence's text and its SPDX
/// identifier.
pub fn get_license(
    license: &str,
    emails: Vec<String>,
    names: Vec<String>,
    project: Option<String>,
    url: Option<String>,
    year: Option<String>,
    body: &Vec<String>,
    sources: &Sources,
    warnings: &mut Vec<CliError>,
) -> (outcome: Result<(String, &'static str), CliError>)
    ensures
        license_view(outcome) == license_of(
            license@,
            emails.deep_view(),
            names.deep_view(),
            project.deep_view(),
            url.deep_view(),
            year.deep_view(),
            body.deep_view(),
            sources@,
        ),
        final(warnings).deep_view() == old(warnings).deep_view() + license_warnings(
            license@,
            emails.deep_view(),
            names.deep_view(),
            project.deep_view(),
            url.deep_view(),
            year.deep_view(),
            sources@,
        ),
{
    let ghost before = warnings.deep_view();
    assert(before + Seq::<CliErrorView>::empty() =~= before);
    let year = match year {
        Some(given) => given,
        None => match sources.now {
            Some(seconds) => decimal_text(seconds / YEAR_SECONDS + 1970),
            None => {
                return Err(
                    CliError::MissingFlag {
                        flag: "-y or --year".to_owned(),
                        reason: "The current year could not be obtained from the system time!".to_owned(),
                    },
                );
            },
        },
    };
    let kind = match license_kind(license) {
        Some(kind) => kind,
        None => {
            return Err(CliError::UnknownLicense { license: license.to_owned() });
        },
    };
    let resolved = match kind.needs() {
        None => {
            let nothing = PackageInfo { name: None, authors: Vec::new(), url: None };
            assert(nothing.authors.deep_view() =~= Seq::<AuthorView>::empty());
            Ok(nothing)
        },
        Some(needs) => get_info(emails, names, project, url, needs, sources, warnings),
    };
    match resolved {
        Err(error) => Err(error),
        Ok(info) => Ok((fill_license(kind, year.as_str(), &info, body), kind.spdx())),
    }
}

/// Each licence has an identifier of its own, and the identifier names that
/// licence and no other.
pub proof fn lemma_identifier_names_its_licence(kind: LicenseKind)
    ensures
        kind_of(identifier_of(kind)) == Some(kind),
{
    reveal_strlit("afl");
    reveal_strlit("agpl");
    reveal_strlit("apache_two");
    reveal_strlit("art");
    reveal_strlit("boost");
    reveal_strlit("bsd_clear");
    reveal_strlit("bsd_four");
    reveal_strlit("bsd_three");
    reveal_strlit("bsd_two");
    reveal_strlit("bsd_zero");
    reveal_strlit("cc");
    reveal_strlit("cc_sa");
    reveal_strlit("cc_zero");
    reveal_strlit("cecill");
    reveal_strlit("ecl");
    reveal_strlit("eclipse_one");
    reveal_strlit("eclipse_two");
    reveal_strlit("eu_one");
    reveal_strlit("eu_two");
    reveal_strlit("fdl");
    reveal_strlit("gpl_three");
    reveal_strlit("gpl_two");
    reveal_strlit("isc");
    reveal_strlit("latex");
    reveal_strlit("lgpl_three");
    reveal_strlit("lgpl_two");
    reveal_strlit("micpl");
    reveal_strlit("mit");
    reveal_strlit("mit_na");
    reveal_strlit("mozpl");
    reveal_strlit("mrl");
    reveal_strlit("mulpl");
    reveal_strlit("ncsa");
    reveal_strlit("odl");
    reveal_strlit("ofl");
    reveal_strlit("osl");
    reveal_strlit("postgres");
    reveal_strlit("unl");
    reveal_strlit("upl");
    reveal_strlit("vim");
    reveal_strlit("zlib");
    assert("afl"@ =~= seq!['a', 'f', 'l']);
    assert("agpl"@ =~= seq!['a', 'g', 'p', 'l']);
    assert("apache_two"@ =~= seq!['a', 'p', 'a', 'c', 'h', 'e', '_', 't', 'w', 'o']);
    assert("art"@ =~= seq!['a', 'r', 't']);
    assert("boost"@ =~= seq!['b', 'o', 'o', 's', 't']);
    assert("bsd_clear"@ =~= seq!['b', 's', 'd', '_', 'c', 'l', 'e', 'a', 'r']);
    assert("bsd_four"@ =~= seq!['b', 's', 'd', '_', 'f', 'o', 'u', 'r']);
    assert("bsd_three"@ =~= seq!['b', 's', 'd', '_', 't', 'h', 'r', 'e', 'e']);
    assert("bsd_two"@ =~= seq!['b', 's', 'd', '_', 't', 'w', 'o']);
    assert("bsd_zero"@ =~= seq!['b', 's', 'd', '_', 'z', 'e', 'r', 'o']);
    assert("cc"@ =~= seq!['c', 'c']);
    assert("cc_sa"@ =~= seq!['c', 'c', '_', 's', 'a']);
    assert("cc_zero"@ =~= seq!['c', 'c', '_', 'z', 'e', 'r', 'o']);
    assert("cecill"@ =~= seq!['c', 'e', 'c', 'i', 'l', 'l']);
    assert("ecl"@ =~= seq!['e', 'c', 'l']);
    assert("eclipse_one"@ =~= seq!['e', 'c', 'l', 'i', 'p', 's', 'e', '_', 'o', 'n', 'e']);
    assert("eclipse_two"@ =~= seq!['e', 'c', 'l', 'i', 'p', 's', 'e', '_', 't', 'w', 'o']);
    assert("eu_one"@ =~= seq!['e', 'u', '_', 'o', 'n', 'e']);
    assert("eu_two"@ =~= seq!['e', 'u', '_', 't', 'w', 'o']);
    assert("fdl"@ =~= seq!['f', 'd', 'l']);
    assert("gpl_three"@ =~= seq!['g', 'p', 'l', '_', 't', 'h', 'r', 'e', 'e']);
    assert("gpl_two"@ =~= seq!['g', 'p', 'l', '_', 't', 'w', 'o']);
    assert("isc"@ =~= seq!['i', 's', 'c']);
    assert("latex"@ =~= seq!['l', 'a', 't', 'e', 'x']);
    assert("lgpl_three"@ =~= seq!['l', 'g', 'p', 'l', '_', 't', 'h', 'r', 'e', 'e']);
    assert("lgpl_two"@ =~= seq!['l', 'g', 'p', 'l', '_', 't', 'w', 'o']);
    assert("micpl"@ =~= seq!['m', 'i', 'c', 'p', 'l']);
    assert("mit"@ =~= seq!['m', 'i', 't']);
    assert("mit_na"@ =~= seq!['m', 'i', 't', '_', 'n', 'a']);
    assert("mozpl"@ =~= seq!['m', 'o', 'z', 'p', 'l']);
    assert("mrl"@ =~= seq!['m', 'r', 'l']);
    assert("mulpl"@ =~= seq!['m', 'u', 'l', 'p', 'l']);
    assert("ncsa"@ =~= seq!['n', 'c', 's', 'a']);
    assert("odl"@ =~= seq!['o', 'd', 'l']);
    assert("ofl"@ =~= seq!['o', 'f', 'l']);
    assert("osl"@ =~= seq!['o', 's', 'l']);
    assert("postgres"@ =~= seq!['p', 'o', 's', 't', 'g', 'r', 'e', 's']);
    assert("unl"@ =~= seq!['u', 'n', 'l']);
    assert("upl"@ =~= seq!['u', 'p', 'l']);
    assert("vim"@ =~= seq!['v', 'i', 'm']);
    assert("zlib"@ =~= seq!['z', 'l', 'i', 'b']);
}

/// A licence that the library knows is never refused as unknown: where it
/// fails, it asks for a flag.
pub proof fn lemma_known_is_not_refused(
    license: Seq<char>,
    emails: Seq<Seq<char>>,
    names: Seq<Seq<char>>,
    project: Option<Seq<char>>,
    url: Option<Seq<char>>,
    year: Option<Seq<char>>,
    body: Seq<Seq<char>>,
    sources: SourcesView,
)
    requires
        kind_of(license) is Some,
    ensures
        license_of(license, emails, names, project, url, year, body, sources) matches Err(
            error,
        ) ==> error is MissingFlag,
{
}

/// A licence that names nothing is written whenever there is a year, and
/// always in the same way: its text is its fixed parts, one after the other,
/// whatever the flags, the year, the manifests and the version control say.
pub proof fn lemma_fixed_text(
    license: Seq<char>,
    kind: LicenseKind,
    emails: Seq<Seq<char>>,
    names: Seq<Seq<char>>,
    project: Option<Seq<char>>,
    url: Option<Seq<char>>,
    year: Seq<char>,
    body: Seq<Seq<char>>,
    sources: SourcesView,
)
    requires
        kind_of(license) == Some(kind),
        wants_of(kind) is Nothing,
    ensures
        license_of(license, emails, names, project, url, Some(year), body, sources) == Ok::<
            (Seq<char>, Seq<char>),
            CliErrorView,
        >((woven(body, Seq::empty()), spdx_of(kind))),
        license_warnings(license, emails, names, project, url, Some(year), sources)
            == Seq::<CliErrorView>::empty(),
{
}

} // verus!
