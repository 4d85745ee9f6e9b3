//! The notice document model: a three-level ownership tree — the notice
//! root owns packages, a package owns one item per documented dependency,
//! an item owns its distributed-file records — rendered deterministically
//! to a lightweight markup document.
//!
//! Ordering at every level is insertion order and is never re-sorted, so
//! rendering is a pure function of the tree and the output path's parent
//! directory.

use crate::distributed_file::{
    parent_dir, rendered_path, spec_parent_dir, spec_rendered_path, spec_status_text,
    DistributedFile,
};
use crate::license::{LicenseBody, LicenseContent};
use crate::markdown::{
    block_quote_chars, bold_chars, link_chars, push_bullet, push_heading, push_paragraph,
    spec_block_quote, spec_bold, spec_bullet, spec_heading, spec_link, spec_paragraph,
};
use crate::text::{chars_to_string, push_all, str_to_chars};
use vstd::prelude::*;

verus! {

/// One documented dependency: its identity, origin, copyright, resolved
/// license content, and the files distributed from it, in processing order.
#[derive(Debug, Clone)]
pub struct ThirdPartyNoticeItem {
    pub name: String,
    pub version: String,
    pub link: String,
    pub copyright: Option<String>,
    pub license: Option<LicenseContent>,
    pub files: Vec<DistributedFile>,
}

/// The text of an item's license line: a generated body shows its raw
/// expression, a literal body points at the license file, a URL is linked,
/// and an absent license says so.
pub open spec fn spec_license_line(license: Option<LicenseContent>) -> Seq<char> {
    match license {
        Some(LicenseContent::Body(LicenseBody::Generated(d))) => d.expression@,
        Some(LicenseContent::Body(LicenseBody::Literal(t))) => "See the LICENSE file for details."@,
        Some(LicenseContent::URL(u)) => "See the "@ + spec_link("license"@, u@)
            + " for details."@,
        None => "Not specified"@,
    }
}

/// One file-list entry: the rendered path, a space, the status text.
pub open spec fn spec_file_entry(f: DistributedFile, base: Seq<char>) -> Seq<char> {
    spec_rendered_path(f.path@, base) + seq![' '] + spec_status_text(f.status)
}

/// The bullets of an item's file list, in insertion order.
pub open spec fn spec_file_list(files: Seq<DistributedFile>, base: Seq<char>) -> Seq<char>
    decreases files.len(),
{
    if files.len() == 0 {
        Seq::empty()
    } else {
        spec_bullet(spec_file_entry(files[0], base)) + spec_file_list(files.skip(1), base)
    }
}

/// An item's rendered block: heading, version and license and source lines,
/// the file list under its own sub-heading when any file exists, and the
/// copyright block-quote when a copyright is present.
pub open spec fn spec_render_item(
    item: ThirdPartyNoticeItem,
    base: Seq<char>,
    level: nat,
) -> Seq<char> {
    spec_heading(level, item.name@) + spec_paragraph(
        spec_bold("Version :"@) + seq![' '] + spec_bold(item.version@),
    ) + spec_paragraph(spec_bold("License :"@) + seq![' '] + spec_license_line(item.license))
        + spec_paragraph(spec_bold("Source:"@) + seq![' '] + spec_link(item.name@, item.link@)) + (
    if item.files.len() > 0 {
        spec_heading((level + 1) as nat, "Included files from the package."@) + spec_file_list(
            item.files@,
            base,
        ) + seq!['\n']
    } else {
        Seq::<char>::empty()
    }) + (match item.copyright {
        Some(c) => spec_paragraph(spec_bold("copyright:"@)) + spec_paragraph(spec_block_quote(c@)),
        None => Seq::<char>::empty(),
    })
}

impl ThirdPartyNoticeItem {
    /// A new item with no files yet.
    pub fn new(
        name: String,
        version: String,
        link: String,
        copyright: Option<String>,
        license: Option<LicenseContent>,
    ) -> (r: ThirdPartyNoticeItem)
        ensures
            r.name@ == name@,
            r.version@ == version@,
            r.link@ == link@,
            r.copyright == copyright,
            r.license == license,
            r.files@.len() == 0,
    {
        ThirdPartyNoticeItem { name, version, link, copyright, license, files: Vec::new() }
    }

    /// The dependency's name.
    pub fn name(&self) -> (r: &str)
        ensures
            r@ == self.name@,
    {
        self.name.as_str()
    }

    /// The dependency's version.
    pub fn version(&self) -> (r: &str)
        ensures
            r@ == self.version@,
    {
        self.version.as_str()
    }

    /// The dependency's origin link.
    pub fn link(&self) -> (r: &str)
        ensures
            r@ == self.link@,
    {
        self.link.as_str()
    }

    /// The dependency's copyright string, if any.
    pub fn copyright(&self) -> (r: Option<&str>)
        ensures
            match r {
                Some(c) => self.copyright is Some && c@ == self.copyright->Some_0@,
                None => self.copyright is None,
            },
    {
        match &self.copyright {
            Some(c) => Some(c.as_str()),
            None => None,
        }
    }

    /// The item's resolved license content, if any.
    pub fn license(&self) -> (r: Option<&LicenseContent>)
        ensures
            match r {
                Some(l) => self.license is Some && *l == self.license->Some_0,
                None => self.license is None,
            },
    {
        self.license.as_ref()
    }

    /// The item's file records.
    pub fn files(&self) -> (r: &Vec<DistributedFile>)
        ensures
            r@ == self.files@,
    {
        &self.files
    }

    /// The item's file records, for mutation.
    pub fn files_mut(&mut self) -> (r: &mut Vec<DistributedFile>)
        ensures
            r@ == old(self).files@,
            final(self).files@ == final(r)@,
            final(self).name@ == old(self).name@,
            final(self).version@ == old(self).version@,
            final(self).link@ == old(self).link@,
            final(self).copyright == old(self).copyright,
            final(self).license == old(self).license,
    {
        &mut self.files
    }

    /// Append one file record.
    pub fn add_file(&mut self, file: DistributedFile)
        ensures
            final(self).files@ == old(self).files@.push(file),
            final(self).name@ == old(self).name@,
            final(self).version@ == old(self).version@,
            final(self).link@ == old(self).link@,
            final(self).copyright == old(self).copyright,
            final(self).license == old(self).license,
    {
        self.files.push(file);
    }

    /// How many file records the item holds.
    pub fn len(&self) -> (r: usize)
        ensures
            r == self.files@.len(),
    {
        self.files.len()
    }

    /// True when the item holds no file record.
    pub fn is_empty(&self) -> (r: bool)
        ensures
            r == (self.files@.len() == 0),
    {
        self.files.len() == 0
    }

    /// The file records, for iteration.
    pub fn iter(&self) -> (r: &Vec<DistributedFile>)
        ensures
            r@ == self.files@,
    {
        &self.files
    }

    /// The file records, for mutating iteration.
    pub fn iter_mut(&mut self) -> (r: &mut Vec<DistributedFile>)
        ensures
            r@ == old(self).files@,
            final(self).files@ == final(r)@,
            final(self).name@ == old(self).name@,
            final(self).version@ == old(self).version@,
            final(self).link@ == old(self).link@,
            final(self).copyright == old(self).copyright,
            final(self).license == old(self).license,
    {
        &mut self.files
    }

    /// Drop every file record.
    pub fn clear(&mut self)
        ensures
            final(self).files@.len() == 0,
            final(self).name@ == old(self).name@,
            final(self).version@ == old(self).version@,
            final(self).link@ == old(self).link@,
            final(self).copyright == old(self).copyright,
            final(self).license == old(self).license,
    {
        self.files.clear();
    }

    /// Remove and return the record at `index`, shifting what follows.
    pub fn remove(&mut self, index: usize) -> (r: DistributedFile)
        requires
            index < old(self).files@.len(),
        ensures
            r == old(self).files@[index as int],
            final(self).files@ == old(self).files@.remove(index as int),
            final(self).name@ == old(self).name@,
            final(self).version@ == old(self).version@,
            final(self).link@ == old(self).link@,
            final(self).copyright == old(self).copyright,
            final(self).license == old(self).license,
    {
        self.files.remove(index)
    }

    /// The record at `index`, if it exists.
    pub fn get(&self, index: usize) -> (r: Option<&DistributedFile>)
        ensures
            match r {
                Some(f) => index < self.files@.len() && *f == self.files@[index as int],
                None => index >= self.files@.len(),
            },
    {
        if index < self.files.len() {
            Some(&self.files[index])
        } else {
            None
        }
    }

    /// The record at `index`, for mutation, if it exists.
    pub fn get_mut(&mut self, index: usize) -> (r: Option<&mut DistributedFile>)
        ensures
            index < old(self).files@.len() ==> (r matches Some(f) && *f == old(
                self,
            ).files@[index as int] && final(self).files@ == old(self).files@.update(
                index as int,
                *final(f),
            )),
            index >= old(self).files@.len() ==> r is None && *final(self) == *old(self),
            final(self).name@ == old(self).name@,
            final(self).version@ == old(self).version@,
            final(self).link@ == old(self).link@,
            final(self).copyright == old(self).copyright,
            final(self).license == old(self).license,
    {
        if index < self.files.len() {
            Some(&mut self.files[index])
        } else {
            None
        }
    }

    /// The line of text the document shows for this item's license.
    fn license_line_chars(&self) -> (r: Vec<char>)
        ensures
            r@ == spec_license_line(self.license),
    {
        match &self.license {
            Some(LicenseContent::Body(LicenseBody::Generated(d))) => str_to_chars(
                d.expression.as_str(),
            ),
            Some(LicenseContent::Body(LicenseBody::Literal(_))) => str_to_chars(
                "See the LICENSE file for details.",
            ),
            Some(LicenseContent::URL(u)) => {
                let mut v = str_to_chars("See the ");
                let label = str_to_chars("license");
                let url = str_to_chars(u.as_str());
                let l = link_chars(&label, &url);
                push_all(&mut v, &l);
                let tail = str_to_chars(" for details.");
                push_all(&mut v, &tail);
                assert(v@ =~= spec_license_line(self.license));
                v
            },
            None => str_to_chars("Not specified"),
        }
    }

    /// Append this item's rendered block to `md`, with file paths shown
    /// relative to the document's parent directory `base`.
    pub fn generate_content_in_place(&self, md: &mut Vec<char>, base: &str, header_level: usize)
        requires
            header_level < usize::MAX,
        ensures
            final(md)@ == old(md)@ + spec_render_item(*self, base@, header_level as nat),
    {
        let ghost md0 = md@;
        let name_c = str_to_chars(self.name.as_str());
        push_heading(md, header_level, &name_c);
        let version_label = str_to_chars("Version :");
        let mut version_line = bold_chars(&version_label);
        version_line.push(' ');
        let version_c = str_to_chars(self.version.as_str());
        let version_bold = bold_chars(&version_c);
        push_all(&mut version_line, &version_bold);
        assert(version_line@ =~= spec_bold("Version :"@) + seq![' '] + spec_bold(self.version@));
        push_paragraph(md, &version_line);
        let license_label = str_to_chars("License :");
        let mut license_line = bold_chars(&license_label);
        license_line.push(' ');
        let license_text = self.license_line_chars();
        push_all(&mut license_line, &license_text);
        assert(license_line@ =~= spec_bold("License :"@) + seq![' '] + spec_license_line(
            self.license,
        ));
        push_paragraph(md, &license_line);
        let source_label = str_to_chars("Source:");
        let mut source_line = bold_chars(&source_label);
        source_line.push(' ');
        let link_c = str_to_chars(self.link.as_str());
        let source_link = link_chars(&name_c, &link_c);
        push_all(&mut source_line, &source_link);
        assert(source_line@ =~= spec_bold("Source:"@) + seq![' '] + spec_link(
            self.name@,
            self.link@,
        ));
        push_paragraph(md, &source_line);
        let ghost md_before_files = md@;
        if self.files.len() > 0 {
            let files_title = str_to_chars("Included files from the package.");
            push_heading(md, header_level + 1, &files_title);
            let ghost md1 = md@;
            let mut i: usize = 0;
            proof {
                assert(self.files@.skip(0) =~= self.files@);
            }
            while i < self.files.len()
                invariant
                    i <= self.files@.len(),
                    base@ == base@,
                    md@ + spec_file_list(self.files@.skip(i as int), base@) == md1
                        + spec_file_list(self.files@, base@),
                decreases self.files@.len() - i,
            {
                let ghost tail = self.files@.skip(i as int);
                proof {
                    assert(tail[0] == self.files@[i as int]);
                    assert(tail.skip(1) =~= self.files@.skip(i + 1));
                }
                let f = &self.files[i];
                let mut entry = rendered_path(f.path.as_str(), base);
                entry.push(' ');
                let status_c = str_to_chars(f.status.as_text());
                push_all(&mut entry, &status_c);
                assert(entry@ =~= spec_file_entry(self.files@[i as int], base@));
                push_bullet(md, &entry);
                i += 1;
                assert(md@ + spec_file_list(self.files@.skip(i as int), base@) =~= md1
                    + spec_file_list(self.files@, base@));
            }
            proof {
                assert(self.files@.skip(self.files@.len() as int)
                    =~= Seq::<DistributedFile>::empty());
                assert(md@ =~= md1 + spec_file_list(self.files@, base@));
            }
            md.push('\n');
            assert(md@ =~= md_before_files + (spec_heading(
                (header_level + 1) as nat,
                "Included files from the package."@,
            ) + spec_file_list(self.files@, base@) + seq!['\n']));
        }
        match &self.copyright {
            Some(c) => {
                let copyright_label = str_to_chars("copyright:");
                let copyright_bold = bold_chars(&copyright_label);
                push_paragraph(md, &copyright_bold);
                let c_chars = str_to_chars(c.as_str());
                let quote = block_quote_chars(&c_chars);
                push_paragraph(md, &quote);
            },
            None => {
            },
        }
        assert(md@ =~= md0 + spec_render_item(*self, base@, header_level as nat));
    }
}

/// One workspace unit's disclosures: the unit's name and its items in
/// acquisition-processing order.
#[derive(Debug, Clone)]
pub struct ThirdPartyNoticePackage {
    pub name: String,
    pub items: Vec<ThirdPartyNoticeItem>,
}

/// The rendered blocks of a package's items, each one level below the
/// package.
pub open spec fn spec_render_items(
    items: Seq<ThirdPartyNoticeItem>,
    base: Seq<char>,
    level: nat,
) -> Seq<char>
    decreases items.len(),
{
    if items.len() == 0 {
        Seq::empty()
    } else {
        spec_render_item(items[0], base, level) + spec_render_items(items.skip(1), base, level)
    }
}

/// A package's rendered content: its items, one level down.
pub open spec fn spec_render_package(
    pkg: ThirdPartyNoticePackage,
    base: Seq<char>,
    level: nat,
) -> Seq<char> {
    spec_render_items(pkg.items@, base, (level + 1) as nat)
}

impl ThirdPartyNoticePackage {
    /// A new package with no items yet.
    pub fn new(name: String) -> (r: ThirdPartyNoticePackage)
        ensures
            r.name@ == name@,
            r.items@.len() == 0,
    {
        ThirdPartyNoticePackage { name, items: Vec::new() }
    }

    /// The workspace unit's name.
    pub fn name(&self) -> (r: &str)
        ensures
            r@ == self.name@,
    {
        self.name.as_str()
    }

    /// The package's items.
    pub fn items(&self) -> (r: &Vec<ThirdPartyNoticeItem>)
        ensures
            r@ == self.items@,
    {
        &self.items
    }

    /// Append one item.
    pub fn add_item(&mut self, item: ThirdPartyNoticeItem)
        ensures
            final(self).items@ == old(self).items@.push(item),
            final(self).name@ == old(self).name@,
    {
        self.items.push(item);
    }

    /// Append this package's rendered content to `md`.
    pub fn generate_content_in_place(&self, md: &mut Vec<char>, base: &str, header_level: usize)
        requires
            header_level < usize::MAX - 1,
        ensures
            final(md)@ == old(md)@ + spec_render_package(*self, base@, header_level as nat),
    {
        let ghost md0 = md@;
        let mut i: usize = 0;
        proof {
            assert(self.items@.skip(0) =~= self.items@);
        }
        while i < self.items.len()
            invariant
                i <= self.items@.len(),
                header_level < usize::MAX - 1,
                md@ + spec_render_items(
                    self.items@.skip(i as int),
                    base@,
                    (header_level + 1) as nat,
                ) == md0 + spec_render_items(self.items@, base@, (header_level + 1) as nat),
            decreases self.items@.len() - i,
        {
            let ghost tail = self.items@.skip(i as int);
            proof {
                assert(tail[0] == self.items@[i as int]);
                assert(tail.skip(1) =~= self.items@.skip(i + 1));
            }
            self.items[i].generate_content_in_place(md, base, header_level + 1);
            i += 1;
            assert(md@ + spec_render_items(
                self.items@.skip(i as int),
                base@,
                (header_level + 1) as nat,
            ) =~= md0 + spec_render_items(self.items@, base@, (header_level + 1) as nat));
        }
        proof {
            assert(self.items@.skip(self.items@.len() as int)
                =~= Seq::<ThirdPartyNoticeItem>::empty());
            assert(md@ =~= md0 + spec_render_package(*self, base@, header_level as nat));
        }
    }
}

/// The document root: every package's disclosures, in processing order.
#[derive(Debug, Clone)]
pub struct ThirdPartyNotice {
    pub packages: Vec<ThirdPartyNoticePackage>,
}

/// The rendered packages. With headers, each package gets a sub-heading one
/// level below the root and its items sit below that; without, packages
/// render at the root's level and their items one level down.
pub open spec fn spec_render_packages(
    pkgs: Seq<ThirdPartyNoticePackage>,
    base: Seq<char>,
    level: nat,
    with_headers: bool,
) -> Seq<char>
    decreases pkgs.len(),
{
    if pkgs.len() == 0 {
        Seq::empty()
    } else {
        let head = if with_headers {
            spec_heading((level + 1) as nat, pkgs[0].name@) + spec_render_package(
                pkgs[0],
                base,
                (level + 1) as nat,
            )
        } else {
            spec_render_package(pkgs[0], base, level)
        };
        head + spec_render_packages(pkgs.skip(1), base, level, with_headers)
    }
}

/// A notice's rendered content. Package sub-headings appear only when more
/// than one package must be told apart.
pub open spec fn spec_render_notice_content(
    n: ThirdPartyNotice,
    base: Seq<char>,
    level: nat,
) -> Seq<char> {
    spec_render_packages(n.packages@, base, level, n.packages@.len() > 1)
}

/// The whole rendered document for a notice written to `output_path`: the
/// top-level heading, then the packages, with file paths shown relative to
/// the output path's parent directory.
pub open spec fn spec_generate_notice(n: ThirdPartyNotice, output_path: Seq<char>) -> Seq<char> {
    spec_heading(1, "Third Party Notices"@) + spec_render_notice_content(
        n,
        spec_parent_dir(output_path),
        1,
    )
}

impl ThirdPartyNotice {
    /// An empty notice.
    pub fn new() -> (r: ThirdPartyNotice)
        ensures
            r.packages@.len() == 0,
    {
        ThirdPartyNotice { packages: Vec::new() }
    }

    /// Append one package.
    pub fn add_item(&mut self, item: ThirdPartyNoticePackage)
        ensures
            final(self).packages@ == old(self).packages@.push(item),
    {
        self.packages.push(item);
    }

    /// The notice's packages.
    pub fn packages(&self) -> (r: &Vec<ThirdPartyNoticePackage>)
        ensures
            r@ == self.packages@,
    {
        &self.packages
    }

    /// Append this notice's rendered content to `md`.
    pub fn generate_content_in_place(&self, md: &mut Vec<char>, base: &str, header_level: usize)
        requires
            header_level < usize::MAX - 2,
        ensures
            final(md)@ == old(md)@ + spec_render_notice_content(*self, base@, header_level as nat),
    {
        let ghost md0 = md@;
        let with_headers = self.packages.len() > 1;
        let mut i: usize = 0;
        proof {
            assert(self.packages@.skip(0) =~= self.packages@);
        }
        while i < self.packages.len()
            invariant
                i <= self.packages@.len(),
                header_level < usize::MAX - 2,
                with_headers == (self.packages@.len() > 1),
                md@ + spec_render_packages(
                    self.packages@.skip(i as int),
                    base@,
                    header_level as nat,
                    with_headers,
                ) == md0 + spec_render_packages(
                    self.packages@,
                    base@,
                    header_level as nat,
                    with_headers,
                ),
            decreases self.packages@.len() - i,
        {
            let ghost tail = self.packages@.skip(i as int);
            proof {
                assert(tail[0] == self.packages@[i as int]);
                assert(tail.skip(1) =~= self.packages@.skip(i + 1));
            }
            let pkg = &self.packages[i];
            if with_headers {
                let name_c = str_to_chars(pkg.name.as_str());
                push_heading(md, header_level + 1, &name_c);
                pkg.generate_content_in_place(md, base, header_level + 1);
            } else {
                pkg.generate_content_in_place(md, base, header_level);
            }
            i += 1;
            assert(md@ + spec_render_packages(
                self.packages@.skip(i as int),
                base@,
                header_level as nat,
                with_headers,
            ) =~= md0 + spec_render_packages(
                self.packages@,
                base@,
                header_level as nat,
                with_headers,
            ));
        }
        proof {
            assert(self.packages@.skip(self.packages@.len() as int)
                =~= Seq::<ThirdPartyNoticePackage>::empty());
            assert(md@ =~= md0 + spec_render_notice_content(*self, base@, header_level as nat));
        }
    }

    /// Render the whole notice document for writing to `output_path`.
    /// The caller writes the returned text to that path in one operation.
    pub fn generate_notice(&self, output_path: &str) -> (r: String)
        ensures
            r@ == spec_generate_notice(*self, output_path@),
    {
        let mut md: Vec<char> = Vec::new();
        let title = str_to_chars("Third Party Notices");
        push_heading(&mut md, 1, &title);
        let base = parent_dir(output_path);
        self.generate_content_in_place(&mut md, base.as_str(), 1);
        assert(md@ =~= spec_generate_notice(*self, output_path@));
        chars_to_string(&md)
    }
}

/// Rendering determinism and idempotence: rendering one notice tree twice,
/// to paths that share a parent directory (the same path included), yields
/// byte-identical documents.
pub proof fn lemma_render_deterministic(n: ThirdPartyNotice, p1: Seq<char>, p2: Seq<char>)
    requires
        spec_parent_dir(p1) == spec_parent_dir(p2),
    ensures
        spec_generate_notice(n, p1) == spec_generate_notice(n, p2),
{
}

} // verus!
