//! A reusable modal containing application details and legal information.

use vstd::prelude::*;

use crate::text::{decimal, format_decimal};

verus! {

/// The tabs of an [`AboutDialog`].
#[derive(Debug, Clone, Copy, PartialEq, Eq, Structural)]
pub enum AboutTab {
    /// Developer, links and the long description.
    Details,
    /// License name, copyright and license text.
    Legal,
}

/// A text field of an [`AboutDialog`].
#[derive(Debug, Clone, Copy, PartialEq, Eq, Structural)]
pub enum AboutField {
    /// The URI of the application icon.
    IconUri,
    /// The version string.
    Version,
    /// Who develops the application.
    Developer,
    /// The main website.
    WebsiteUrl,
    /// Where users report issues.
    IssuesUrl,
    /// The tagline shown beneath the name.
    Description,
    /// The longer description shown with the details.
    DescriptionLong,
    /// The license name.
    LicenseName,
    /// The full license text.
    LicenseText,
}

/// What an [`AboutDialog`] holds.
pub struct AboutInfo {
    /// Whether the dialog is shown.
    pub open: bool,
    /// The selected tab.
    pub tab: AboutTab,
    /// The application name.
    pub name: Seq<char>,
    /// The URI of the application icon.
    pub icon_uri: Option<Seq<char>>,
    /// The version string.
    pub version: Option<Seq<char>>,
    /// Who develops the application.
    pub developer: Option<Seq<char>>,
    /// The main website.
    pub website_url: Option<Seq<char>>,
    /// Where users report issues.
    pub issues_url: Option<Seq<char>>,
    /// The tagline shown beneath the name.
    pub description: Option<Seq<char>>,
    /// The longer description shown with the details.
    pub description_long: Option<Seq<char>>,
    /// The copyright year.
    pub license_year: Option<u32>,
    /// The license name.
    pub license_name: Option<Seq<char>>,
    /// The full license text.
    pub license_text: Option<Seq<char>>,
}

/// The characters of an optional string.
pub open spec fn opt_text(s: Option<String>) -> Option<Seq<char>> {
    match s {
        Some(t) => Some(t@),
        None => None,
    }
}

/// A modal about dialog with optional application details and legal information.
///
/// The application name is required; all other content can be added with the
/// chainable setters. The dialog starts closed on its details tab. Call
/// [`open`](Self::open) in response to a user action.
pub struct AboutDialog {
    open: bool,
    tab: AboutTab,
    name: String,
    icon_uri: Option<String>,
    version: Option<String>,
    developer: Option<String>,
    website_url: Option<String>,
    issues_url: Option<String>,
    description: Option<String>,
    description_long: Option<String>,
    license_year: Option<u32>,
    license_name: Option<String>,
    license_text: Option<String>,
}

impl View for AboutDialog {
    type V = AboutInfo;

    closed spec fn view(&self) -> AboutInfo {
        AboutInfo {
            open: self.open,
            tab: self.tab,
            name: self.name@,
            icon_uri: opt_text(self.icon_uri),
            version: opt_text(self.version),
            developer: opt_text(self.developer),
            website_url: opt_text(self.website_url),
            issues_url: opt_text(self.issues_url),
            description: opt_text(self.description),
            description_long: opt_text(self.description_long),
            license_year: self.license_year,
            license_name: opt_text(self.license_name),
            license_text: opt_text(self.license_text),
        }
    }
}

/// Whether the details tab has content: a developer, a link or a long
/// description.
pub open spec fn info_has_details(i: AboutInfo) -> bool {
    i.developer is Some || i.website_url is Some || i.issues_url is Some || i.description_long is Some
}

/// Whether the legal tab has content: a year, a license name or text.
pub open spec fn info_has_legal(i: AboutInfo) -> bool {
    i.license_year is Some || i.license_name is Some || i.license_text is Some
}

/// The section shown below the header: none without details or legal
/// content; the details when there are no legal ones or the details tab is
/// selected; the legal information otherwise.
pub open spec fn info_section(i: AboutInfo) -> Option<AboutTab> {
    if !info_has_details(i) && !info_has_legal(i) {
        None
    } else if info_has_details(i) && (!info_has_legal(i) || i.tab == AboutTab::Details) {
        Some(AboutTab::Details)
    } else {
        Some(AboutTab::Legal)
    }
}

impl AboutDialog {
    /// Creates a closed dialog for the application named `name`.
    pub fn new(name: &str) -> (d: Self)
        ensures
            d@ == (AboutInfo {
                open: false,
                tab: AboutTab::Details,
                name: name@,
                icon_uri: None,
                version: None,
                developer: None,
                website_url: None,
                issues_url: None,
                description: None,
                description_long: None,
                license_year: None,
                license_name: None,
                license_text: None,
            }),
    {
        AboutDialog {
            open: false,
            tab: AboutTab::Details,
            name: name.to_owned(),
            icon_uri: None,
            version: None,
            developer: None,
            website_url: None,
            issues_url: None,
            description: None,
            description_long: None,
            license_year: None,
            license_name: None,
            license_text: None,
        }
    }

    /// Sets the URI of the application icon.
    pub fn icon_uri(self, icon_uri: &str) -> (d: Self)
        ensures
            d@ == (AboutInfo { icon_uri: Some(icon_uri@), ..self@ }),
    {
        AboutDialog { icon_uri: Some(icon_uri.to_owned()), ..self }
    }

    /// Sets the application version string.
    pub fn version(self, version: &str) -> (d: Self)
        ensures
            d@ == (AboutInfo { version: Some(version@), ..self@ }),
    {
        AboutDialog { version: Some(version.to_owned()), ..self }
    }

    /// Sets the person or organization that develops the application.
    pub fn developer(self, developer: &str) -> (d: Self)
        ensures
            d@ == (AboutInfo { developer: Some(developer@), ..self@ }),
    {
        AboutDialog { developer: Some(developer.to_owned()), ..self }
    }

    /// Sets the application's main website URL.
    pub fn website_url(self, website_url: &str) -> (d: Self)
        ensures
            d@ == (AboutInfo { website_url: Some(website_url@), ..self@ }),
    {
        AboutDialog { website_url: Some(website_url.to_owned()), ..self }
    }

    /// Sets the URL where users can report issues.
    pub fn issues_url(self, issues_url: &str) -> (d: Self)
        ensures
            d@ == (AboutInfo { issues_url: Some(issues_url@), ..self@ }),
    {
        AboutDialog { issues_url: Some(issues_url.to_owned()), ..self }
    }

    /// Sets the short application tagline shown beneath its name.
    pub fn description(self, description: &str) -> (d: Self)
        ensures
            d@ == (AboutInfo { description: Some(description@), ..self@ }),
    {
        AboutDialog { description: Some(description.to_owned()), ..self }
    }

    /// Sets the longer application description shown with the details.
    pub fn description_long(self, description_long: &str) -> (d: Self)
        ensures
            d@ == (AboutInfo { description_long: Some(description_long@), ..self@ }),
    {
        AboutDialog { description_long: Some(description_long.to_owned()), ..self }
    }

    /// Sets the copyright year shown with the legal information.
    pub fn license_year(self, license_year: u32) -> (d: Self)
        ensures
            d@ == (AboutInfo { license_year: Some(license_year), ..self@ }),
    {
        AboutDialog { license_year: Some(license_year), ..self }
    }

    /// Sets the name of the application's license.
    pub fn license_name(self, license_name: &str) -> (d: Self)
        ensures
            d@ == (AboutInfo { license_name: Some(license_name@), ..self@ }),
    {
        AboutDialog { license_name: Some(license_name.to_owned()), ..self }
    }

    /// Sets the full license text.
    pub fn license_text(self, license_text: &str) -> (d: Self)
        ensures
            d@ == (AboutInfo { license_text: Some(license_text@), ..self@ }),
    {
        AboutDialog { license_text: Some(license_text.to_owned()), ..self }
    }

    /// Opens the dialog for display on its next render.
    pub fn open(&mut self)
        ensures
            final(self)@ == (AboutInfo { open: true, ..old(self)@ }),
    {
        self.open = true;
    }

    /// Closes the dialog, as its "Close" button does.
    pub fn close(&mut self)
        ensures
            final(self)@ == (AboutInfo { open: false, ..old(self)@ }),
    {
        self.open = false;
    }

    /// Selects a tab.
    pub fn select_tab(&mut self, tab: AboutTab)
        ensures
            final(self)@ == (AboutInfo { tab: tab, ..old(self)@ }),
    {
        self.tab = tab;
    }

    /// Whether the dialog is shown.
    pub fn is_open(&self) -> (r: bool)
        ensures
            r == self@.open,
    {
        self.open
    }

    /// Whether the details tab has content.
    pub fn has_details(&self) -> (r: bool)
        ensures
            r == info_has_details(self@),
    {
        self.developer.is_some() || self.website_url.is_some() || self.issues_url.is_some()
            || self.description_long.is_some()
    }

    /// Whether the legal tab has content.
    pub fn has_legal(&self) -> (r: bool)
        ensures
            r == info_has_legal(self@),
    {
        self.license_year.is_some() || self.license_name.is_some() || self.license_text.is_some()
    }

    /// Whether tabs are shown: both the details and the legal tab have
    /// content.
    pub fn shows_tabs(&self) -> (r: bool)
        ensures
            r == (info_has_details(self@) && info_has_legal(self@)),
    {
        self.has_details() && self.has_legal()
    }

    /// The section shown below the header, if any.
    pub fn section(&self) -> (r: Option<AboutTab>)
        ensures
            r == info_section(self@),
    {
        let details = self.has_details();
        let legal = self.has_legal();
        if !details && !legal {
            None
        } else if details && (!legal || self.tab == AboutTab::Details) {
            Some(AboutTab::Details)
        } else {
            Some(AboutTab::Legal)
        }
    }

    /// The version line: "Version " and the version, if one is set.
    pub fn version_line(&self) -> (r: Option<String>)
        ensures
            match self@.version {
                Some(v) => r matches Some(s) && s@ == "Version "@ + v,
                None => r is None,
            },
    {
        match &self.version {
            Some(v) => {
                let mut s = "Version ".to_owned();
                s.append(v.as_str());
                Some(s)
            },
            None => None,
        }
    }

    /// The developer line of the details: "Developed by " and the developer,
    /// if one is set.
    pub fn developer_line(&self) -> (r: Option<String>)
        ensures
            match self@.developer {
                Some(d) => r matches Some(s) && s@ == "Developed by "@ + d,
                None => r is None,
            },
    {
        match &self.developer {
            Some(d) => {
                let mut s = "Developed by ".to_owned();
                s.append(d.as_str());
                Some(s)
            },
            None => None,
        }
    }

    /// The copyright line of the legal information: "© ", the year, and the
    /// developer after a space when one is set; nothing without a year.
    pub fn copyright_line(&self) -> (r: Option<String>)
        ensures
            match self@.license_year {
                Some(y) => r matches Some(s) && s@ == match self@.developer {
                    Some(d) => "© "@ + decimal(y as nat) + " "@ + d,
                    None => "© "@ + decimal(y as nat),
                },
                None => r is None,
            },
    {
        match self.license_year {
            Some(year) => {
                let mut s = "© ".to_owned();
                s.append(format_decimal(year as u64).as_str());
                match &self.developer {
                    Some(d) => {
                        s.append(" ");
                        s.append(d.as_str());
                    },
                    None => {},
                }
                Some(s)
            },
            None => None,
        }
    }

    /// Returns the application name.
    pub fn name(&self) -> (r: &str)
        ensures
            r@ == self@.name,
    {
        self.name.as_str()
    }
}

/// The value of a text field.
pub open spec fn info_field(i: AboutInfo, f: AboutField) -> Option<Seq<char>> {
    match f {
        AboutField::IconUri => i.icon_uri,
        AboutField::Version => i.version,
        AboutField::Developer => i.developer,
        AboutField::WebsiteUrl => i.website_url,
        AboutField::IssuesUrl => i.issues_url,
        AboutField::Description => i.description,
        AboutField::DescriptionLong => i.description_long,
        AboutField::LicenseName => i.license_name,
        AboutField::LicenseText => i.license_text,
    }
}

impl AboutDialog {
    /// Returns a text field, if it is set.
    pub fn field(&self, f: AboutField) -> (r: Option<&str>)
        ensures
            match info_field(self@, f) {
                Some(t) => r matches Some(s) && s@ == t,
                None => r is None,
            },
    {
        let v = match f {
            AboutField::IconUri => &self.icon_uri,
            AboutField::Version => &self.version,
            AboutField::Developer => &self.developer,
            AboutField::WebsiteUrl => &self.website_url,
            AboutField::IssuesUrl => &self.issues_url,
            AboutField::Description => &self.description,
            AboutField::DescriptionLong => &self.description_long,
            AboutField::LicenseName => &self.license_name,
            AboutField::LicenseText => &self.license_text,
        };
        match v {
            Some(t) => Some(t.as_str()),
            None => None,
        }
    }

    /// Returns the copyright year, if it is set.
    pub fn year(&self) -> (r: Option<u32>)
        ensures
            r == self@.license_year,
    {
        self.license_year
    }

    /// Returns the selected tab.
    pub fn tab(&self) -> (r: AboutTab)
        ensures
            r == self@.tab,
    {
        self.tab
    }
}

/// Any license information gives the dialog legal content: a copyright year,
/// a license name or a license text, each on its own, whatever else the
/// dialog holds; without all three it has none.
pub proof fn license_information_is_legal_content(i: AboutInfo, year: u32, name: Seq<char>, text: Seq<char>)
    ensures
        info_has_legal(AboutInfo { license_year: Some(year), ..i }),
        info_has_legal(AboutInfo { license_name: Some(name), ..i }),
        info_has_legal(AboutInfo { license_text: Some(text), ..i }),
        !info_has_legal(AboutInfo { license_year: None, license_name: None, license_text: None, ..i }),
{
}

/// A developer, a website, an issue tracker or a long description each give
/// the dialog details, whatever else it holds; without all four it has
/// none. The short description and the version are part of the header, not
/// of the details.
pub proof fn developer_information_is_detail_content(i: AboutInfo, text: Seq<char>)
    ensures
        info_has_details(AboutInfo { developer: Some(text), ..i }),
        info_has_details(AboutInfo { website_url: Some(text), ..i }),
        info_has_details(AboutInfo { issues_url: Some(text), ..i }),
        info_has_details(AboutInfo { description_long: Some(text), ..i }),
        !info_has_details(AboutInfo { developer: None, website_url: None, issues_url: None, description_long: None, ..i }),
        info_has_details(AboutInfo { description: Some(text), ..i }) == info_has_details(i),
        info_has_details(AboutInfo { version: Some(text), ..i }) == info_has_details(i),
{
}

/// The selected tab is shown when it has content: a dialog with legal
/// content shows it on the legal tab, one with details shows them on the
/// details tab; a dialog with only one kind of content shows that one on
/// either tab, and one with neither shows no section.
pub proof fn selected_content_is_shown(i: AboutInfo)
    ensures
        info_has_legal(i) ==> info_section(AboutInfo { tab: AboutTab::Legal, ..i }) == Some(AboutTab::Legal),
        info_has_details(i) ==> info_section(AboutInfo { tab: AboutTab::Details, ..i }) == Some(AboutTab::Details),
        info_has_legal(i) && !info_has_details(i) ==> info_section(i) == Some(AboutTab::Legal),
        info_has_details(i) && !info_has_legal(i) ==> info_section(i) == Some(AboutTab::Details),
        !info_has_details(i) && !info_has_legal(i) ==> info_section(i) is None,
{
}

} // verus!
