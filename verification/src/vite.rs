//! Layouts for pages whose assets are built with Vite.

use crate::fingerprint::{fingerprint, fingerprint_of};
use crate::html::{escape_html, html_escaped};
use crate::text::{decimal, decimal_text, same_text};
use crate::Inertia;
use vstd::prelude::*;

verus! {

/// The layout for a Vite development server on this machine.
pub struct Development {
    port: u16,
    main: &'static str,
    lang: &'static str,
    title: &'static str,
}

/// A development layout as plain values.
pub struct DevelopmentView {
    pub port: u16,
    pub main: Seq<char>,
    pub lang: Seq<char>,
    pub title: Seq<char>,
}

impl View for Development {
    type V = DevelopmentView;

    closed spec fn view(&self) -> DevelopmentView {
        DevelopmentView { port: self.port, main: self.main@, lang: self.lang@, title: self.title@ }
    }
}

impl Default for Development {
    /// Port 5173, entry point `src/main.ts`, language `en`, title `Vite`.
    fn default() -> (dev: Development)
        ensures
            dev@ == (DevelopmentView {
                port: 5173,
                main: "src/main.ts"@,
                lang: "en"@,
                title: "Vite"@,
            }),
    {
        Development { port: 5173, main: "src/main.ts", lang: "en", title: "Vite" }
    }
}

/// The address of the development server's own client script.
pub open spec fn client_address(port: u16) -> Seq<char> {
    "http://localhost:"@ + decimal(port as nat) + "/@vite/client"@
}

/// The address of the entry point on the development server.
pub open spec fn entry_address(port: u16, main: Seq<char>) -> Seq<char> {
    "http://localhost:"@ + decimal(port as nat) + "/"@ + main
}

/// The document of a first visit in development: language and title, the
/// two module scripts of the development server, and the serialised page in
/// the `data-page` attribute of the element `app`. What is not fixed is
/// escaped.
pub open spec fn development_document(dev: DevelopmentView, props: Seq<char>) -> Seq<char> {
    "<html lang=\""@ + html_escaped(dev.lang) + "\"><head><title>"@ + html_escaped(dev.title)
        + "</title><meta charset=\"utf-8\"><meta name=\"viewport\" content=\"width=device-width, initial-scale=1.0\"><script type=\"module\" src=\""@
        + html_escaped(client_address(dev.port)) + "\"></script><script type=\"module\" src=\""@
        + html_escaped(entry_address(dev.port, dev.main))
        + "\"></script></head><body><div id=\"app\" data-page=\""@ + html_escaped(props)
        + "\"></div></body></html>"@
}

impl Development {
    /// Renders the document of a first visit around the serialised page.
    pub fn render(&self, props: &str) -> (document: String)
        ensures
            document@ == development_document(self@, props@),
    {
        let port = decimal_text(self.port);
        let mut client = "http://localhost:".to_owned();
        client.append(port.as_str());
        client.append("/@vite/client");
        let mut entry = "http://localhost:".to_owned();
        entry.append(port.as_str());
        entry.append("/");
        entry.append(self.main);
        let mut document = "<html lang=\"".to_owned();
        document.append(escape_html(self.lang).as_str());
        document.append("\"><head><title>");
        document.append(escape_html(self.title).as_str());
        document.append(
            "</title><meta charset=\"utf-8\"><meta name=\"viewport\" content=\"width=device-width, initial-scale=1.0\"><script type=\"module\" src=\"",
        );
        document.append(escape_html(client.as_str()).as_str());
        document.append("\"></script><script type=\"module\" src=\"");
        document.append(escape_html(entry.as_str()).as_str());
        document.append("\"></script></head><body><div id=\"app\" data-page=\"");
        document.append(escape_html(props).as_str());
        document.append("\"></div></body></html>");
        document
    }

    /// The protocol state of a development server: no asset version, and
    /// this layout.
    pub fn into_inertia(self) -> (inertia: Inertia<impl Fn(String) -> String>)
        ensures
            inertia@.request is None,
            inertia@.version is None,
            forall|props: String| call_requires(inertia@.layout, (props,)),
            forall|props: String, document: String|
                call_ensures(inertia@.layout, (props,), document) ==> document@
                    == development_document(self@, props@),
    {
        let layout = move |props: String| -> (document: String)
            ensures
                document@ == development_document(self@, props@),
            { self.render(props.as_str()) };
        Inertia::new(None, layout)
    }

    /// Sets the port of the development server.
    pub fn port(self, port: u16) -> (dev: Development)
        ensures
            dev@ == (DevelopmentView { port, ..self@ }),
    {
        let mut dev = self;
        dev.port = port;
        dev
    }

    /// Sets the entry point, a path below the server's root.
    pub fn main(self, main: &'static str) -> (dev: Development)
        ensures
            dev@ == (DevelopmentView { main: main@, ..self@ }),
    {
        let mut dev = self;
        dev.main = main;
        dev
    }

    /// Sets the language of the document.
    pub fn lang(self, lang: &'static str) -> (dev: Development)
        ensures
            dev@ == (DevelopmentView { lang: lang@, ..self@ }),
    {
        let mut dev = self;
        dev.lang = lang;
        dev
    }

    /// Sets the title of the document.
    pub fn title(self, title: &'static str) -> (dev: Development)
        ensures
            dev@ == (DevelopmentView { title: title@, ..self@ }),
    {
        let mut dev = self;
        dev.title = title;
        dev
    }
}

/// The layout for assets that Vite has built.
pub struct Production {
    main: String,
    css: Option<String>,
    title: &'static str,
    lang: &'static str,
    version: String,
}

/// A production layout as plain values.
pub struct ProductionView {
    pub main: Seq<char>,
    pub css: Option<Seq<char>>,
    pub title: Seq<char>,
    pub lang: Seq<char>,
    pub version: Seq<char>,
}

impl View for Production {
    type V = ProductionView;

    closed spec fn view(&self) -> ProductionView {
        ProductionView {
            main: self.main@,
            css: self.css.deep_view(),
            title: self.title@,
            lang: self.lang@,
            version: self.version@,
        }
    }
}

/// One entry of a build manifest: a source file that was built.
pub struct ManifestEntry {
    /// The file that was built from the source, a path below the root.
    pub file: String,
    /// The style sheets that the entry needs, each a path below the root.
    pub css: Option<Vec<String>>,
}

/// A manifest entry as plain values.
pub struct ManifestEntryView {
    pub file: Seq<char>,
    pub css: Option<Seq<Seq<char>>>,
}

impl View for ManifestEntry {
    type V = ManifestEntryView;

    open spec fn view(&self) -> ManifestEntryView {
        ManifestEntryView { file: self.file@, css: self.css.deep_view() }
    }
}

/// A build manifest: the bytes of the file, and the entries that the file
/// holds, each under the name of its source.
pub struct Manifest {
    /// The manifest file, byte for byte.
    pub bytes: Vec<u8>,
    /// The entries by name.
    pub entries: Vec<(String, ManifestEntry)>,
}

/// Whether the manifest holds an entry under the name `main`.
pub open spec fn has_entry(entries: Seq<(String, ManifestEntry)>, main: Seq<char>) -> bool {
    exists|i: int| 0 <= i < entries.len() && (#[trigger] entries[i]).0@ == main
}

/// Whether the entry at `i` is the first under the name `main`.
pub open spec fn is_first_entry(entries: Seq<(String, ManifestEntry)>, main: Seq<char>, i: int) -> bool {
    &&& 0 <= i < entries.len()
    &&& entries[i].0@ == main
    &&& forall|j: int| 0 <= j < i ==> (#[trigger] entries[j]).0@ != main
}

/// The element that links one style sheet.
pub open spec fn css_link(source: Seq<char>) -> Seq<char> {
    "<link rel=\"stylesheet\" href=\"/"@ + source + "\"/>"@
}

/// The elements that link the style sheets, in order.
pub open spec fn css_links(sources: Seq<Seq<char>>) -> Seq<char> {
    sources.flat_map(|source: Seq<char>| css_link(source))
}

/// The layout that a manifest gives for the entry point `main`.
pub open spec fn production_of(bytes: Seq<u8>, entry: ManifestEntryView) -> ProductionView {
    ProductionView {
        main: "/"@ + entry.file,
        css: match entry.css {
            Some(sources) => Some(css_links(sources)),
            None => None,
        },
        title: "Vite"@,
        lang: "en"@,
        version: fingerprint_of(bytes),
    }
}

/// The document of a first visit in production: language and title, the
/// module script of the entry point, the links to its style sheets as they
/// are, and the serialised page in the `data-page` attribute of the element
/// `app`. What is neither fixed nor a link is escaped.
pub open spec fn production_document(prod: ProductionView, props: Seq<char>) -> Seq<char> {
    "<html lang=\""@ + html_escaped(prod.lang) + "\"><head><title>"@ + html_escaped(prod.title)
        + "</title><meta charset=\"utf-8\"><meta name=\"viewport\" content=\"width=device-width, initial-scale=1.0\"><script type=\"module\" src=\""@
        + html_escaped(prod.main) + "\"></script>"@ + (match prod.css {
        Some(links) => links,
        None => Seq::<char>::empty(),
    }) + "</head><body><div id=\"app\" data-page=\""@ + html_escaped(props)
        + "\"></div></body></html>"@
}

/// Writes the elements that link the style sheets.
fn link_styles(sources: &Vec<String>) -> (links: String)
    ensures
        links@ == css_links(sources.deep_view()),
{
    let mut links = String::new();
    let mut i: usize = 0;
    assert(sources.deep_view().take(0) =~= Seq::<Seq<char>>::empty());
    while i < sources.len()
        invariant
            i <= sources.len(),
            links@ == css_links(sources.deep_view().take(i as int)),
        decreases sources.len() - i,
    {
        links.append("<link rel=\"stylesheet\" href=\"/");
        links.append(sources[i].as_str());
        links.append("\"/>");
        proof {
            let all = sources.deep_view();
            let link = |source: Seq<char>| css_link(source);
            assert(all.take(i + 1) =~= all.take(i as int).push(all[i as int]));
            assert(all.take(i + 1).map_values(link) =~= all.take(i as int).map_values(link).push(
                css_link(all[i as int]),
            ));
            all.take(i as int).map_values(link).lemma_flatten_push(css_link(all[i as int]));
            assert(all[i as int] == sources[i as int]@);
        }
        i = i + 1;
    }
    assert(sources.deep_view().take(i as int) =~= sources.deep_view());
    links
}

impl Production {
    /// The layout for the entry point `main` of a build: the file of the
    /// first manifest entry under that name as the module script, its style
    /// sheets linked in order, the title `Vite`, the language `en`, and the
    /// fingerprint of the manifest, forty hexadecimal digits, as the asset
    /// version. It fails exactly when the manifest has no entry under the
    /// name.
    pub fn new(manifest: &Manifest, main: &'static str) -> (made: Result<Production, ViteError>)
        ensures
            has_entry(manifest.entries@, main@) ==> (made matches Ok(prod) && prod@.version.len()
                == 40 && exists|i: int|
                is_first_entry(manifest.entries@, main@, i) && prod@ == production_of(
                    manifest.bytes@,
                    (#[trigger] manifest.entries@[i]).1@,
                )),
            !has_entry(manifest.entries@, main@) ==> (made matches Err(
                ViteError::EntryMissing(name),
            ) && name@ == main@),
    {
        let mut i: usize = 0;
        while i < manifest.entries.len()
            invariant
                i <= manifest.entries.len(),
                forall|j: int| 0 <= j < i ==> (#[trigger] manifest.entries@[j]).0@ != main@,
            decreases manifest.entries.len() - i,
        {
            if same_text(manifest.entries[i].0.as_str(), main) {
                let entry = &manifest.entries[i].1;
                let version = fingerprint(manifest.bytes.as_slice());
                let css = match &entry.css {
                    Some(sources) => Some(link_styles(sources)),
                    None => None,
                };
                let mut file = "/".to_owned();
                file.append(entry.file.as_str());
                assert(is_first_entry(manifest.entries@, main@, i as int));
                return Ok(Production { main: file, css, title: "Vite", lang: "en", version });
            }
            i = i + 1;
        }
        Err(ViteError::EntryMissing(main))
    }

    /// Renders the document of a first visit around the serialised page.
    pub fn render(&self, props: &str) -> (document: String)
        ensures
            document@ == production_document(self@, props@),
    {
        let mut document = "<html lang=\"".to_owned();
        document.append(escape_html(self.lang).as_str());
        document.append("\"><head><title>");
        document.append(escape_html(self.title).as_str());
        document.append(
            "</title><meta charset=\"utf-8\"><meta name=\"viewport\" content=\"width=device-width, initial-scale=1.0\"><script type=\"module\" src=\"",
        );
        document.append(escape_html(self.main.as_str()).as_str());
        document.append("\"></script>");
        match &self.css {
            Some(links) => {
                document.append(links.as_str());
            },
            None => {
                assert(document@ + Seq::<char>::empty() =~= document@);
            },
        }
        document.append("</head><body><div id=\"app\" data-page=\"");
        document.append(escape_html(props).as_str());
        document.append("\"></div></body></html>");
        document
    }

    /// The asset version: the fingerprint of the manifest.
    pub fn version(&self) -> (version: &String)
        ensures
            version@ == self@.version,
    {
        &self.version
    }

    /// The protocol state of a production server: the fingerprint of the
    /// manifest as asset version, and this layout.
    pub fn into_inertia(self) -> (inertia: Inertia<impl Fn(String) -> String>)
        ensures
            inertia@.request is None,
            inertia@.version == Some(self@.version),
            forall|props: String| call_requires(inertia@.layout, (props,)),
            forall|props: String, document: String|
                call_ensures(inertia@.layout, (props,), document) ==> document@
                    == production_document(self@, props@),
    {
        let version = self.version.clone();
        let layout = move |props: String| -> (document: String)
            ensures
                document@ == production_document(self@, props@),
            { self.render(props.as_str()) };
        Inertia::new(Some(version), layout)
    }

    /// Sets the language of the document.
    pub fn lang(self, lang: &'static str) -> (prod: Production)
        ensures
            prod@ == (ProductionView { lang: lang@, ..self@ }),
    {
        let mut prod = self;
        prod.lang = lang;
        prod
    }

    /// Sets the title of the document.
    pub fn title(self, title: &'static str) -> (prod: Production)
        ensures
            prod@ == (ProductionView { title: title@, ..self@ }),
    {
        let mut prod = self;
        prod.title = title;
        prod
    }
}

/// `std::io::Error`, why a file could not be read.
#[verifier::external_type_specification]
#[verifier::external_body]
pub struct ExIoError(std::io::Error);

/// Why a production layout could not be made.
#[derive(Debug)]
pub enum ViteError {
    /// The manifest could not be opened.
    ManifestMissing(std::io::Error),
    /// The manifest has no entry of this name.
    EntryMissing(&'static str),
}

impl ViteError {
    /// What went wrong, in words.
    pub fn message(&self) -> (text: String)
        ensures
            text@ == match self {
                ViteError::ManifestMissing(_) => "couldn't open manifest file"@,
                ViteError::EntryMissing(entry) => "manifest missing entry for "@ + entry@,
            },
    {
        match self {
            ViteError::ManifestMissing(_) => "couldn't open manifest file".to_owned(),
            ViteError::EntryMissing(entry) => {
                let mut text = "manifest missing entry for ".to_owned();
                text.append(entry);
                text
            },
        }
    }

    /// The error underneath: that of opening the manifest, where that failed.
    pub fn source(&self) -> (cause: Option<&std::io::Error>)
        ensures
            cause == match self {
                ViteError::ManifestMissing(e) => Some(e),
                ViteError::EntryMissing(_) => None,
            },
    {
        match self {
            ViteError::ManifestMissing(e) => Some(e),
            ViteError::EntryMissing(_) => None,
        }
    }
}

} // verus!
