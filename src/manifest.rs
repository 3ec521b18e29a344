//! The manifest: the record a launcher reads to boot a quardle, and its
//! JSON text.
use vstd::prelude::*;
use crate::layout::{BUNDLE_DIR, DEFAULT_KERNEL_CMDLINE, INITRAMFS_FILE, KAPS_INSTALL_PATH, KERNEL_FILE};
use crate::quardle::Error;

verus! {

/// The hex digit of `n`, lower case.
pub open spec fn hex_digit(n: u32) -> char {
    seq!['0', '1', '2', '3', '4', '5', '6', '7', '8', '9', 'a', 'b', 'c', 'd', 'e', 'f'][n as int]
}

/// How one character stands inside a JSON string literal: quote and
/// backslash escaped, the usual short escapes, other control characters as
/// `\u00XX`, everything else as it is.
pub open spec fn json_escape(c: char) -> Seq<char> {
    if c == '"' {
        seq!['\\', '"']
    } else if c == '\\' {
        seq!['\\', '\\']
    } else if c == '\u{08}' {
        seq!['\\', 'b']
    } else if c == '\t' {
        seq!['\\', 't']
    } else if c == '\n' {
        seq!['\\', 'n']
    } else if c == '\u{0C}' {
        seq!['\\', 'f']
    } else if c == '\r' {
        seq!['\\', 'r']
    } else if (c as u32) < 0x20 {
        seq!['\\', 'u', '0', '0', hex_digit((c as u32) / 16), hex_digit((c as u32) % 16)]
    } else {
        seq![c]
    }
}

/// The characters of `s`, each escaped.
pub open spec fn json_escaped(s: Seq<char>) -> Seq<char>
    decreases s.len(),
{
    if s.len() == 0 {
        Seq::empty()
    } else {
        json_escaped(s.drop_last()) + json_escape(s.last())
    }
}

/// The JSON string literal for `s`.
pub open spec fn json_quoted(s: Seq<char>) -> Seq<char> {
    seq!['"'] + json_escaped(s) + seq!['"']
}

/// Relies on `serde_json::to_string` applied to a `str`: it writes the JSON
/// string literal for `s` into a buffer, which cannot fail.
#[verifier::external_body]
fn quote(s: &str) -> (r: Option<String>)
    ensures
        r is Some,
        r matches Some(q) ==> q@ == json_quoted(s@),
{
    serde_json::to_string(s).ok()
}

/// The immutable input of a build.
pub struct BuildRequest {
    /// Artifact name; the archive is called `<name>.qrk`.
    pub name: String,
    /// Container image source, a URL or a local path.
    pub image: String,
    /// Whether the container image is pre-fetched and embedded.
    pub offline: bool,
    /// Kernel command line; the default one is used when absent.
    pub kernel_cmdline: Option<String>,
}

/// The record embedded in every archive.
pub struct Manifest {
    pub quardle: String,
    pub kernel: String,
    pub initramfs: String,
    pub kernel_cmdline: String,
    pub image: String,
    pub kaps: String,
    pub offline: bool,
    /// Bundle directory inside the archive; present exactly in offline mode.
    pub bundle: Option<String>,
}

pub open spec fn opt_view(o: Option<String>) -> Option<Seq<char>> {
    match o {
        Some(s) => Some(s@),
        None => None,
    }
}

/// `m` is the manifest of `req`.
pub open spec fn manifest_of(req: &BuildRequest, m: &Manifest) -> bool {
    &&& m.quardle@ == req.name@
    &&& m.kernel@ == KERNEL_FILE@
    &&& m.initramfs@ == INITRAMFS_FILE@
    &&& m.kernel_cmdline@ == match req.kernel_cmdline {
        Some(c) => c@,
        None => DEFAULT_KERNEL_CMDLINE@,
    }
    &&& m.image@ == req.image@
    &&& m.kaps@ == KAPS_INSTALL_PATH@
    &&& m.offline == req.offline
    &&& opt_view(m.bundle) == if req.offline {
        Some(BUNDLE_DIR@)
    } else {
        None::<Seq<char>>
    }
}

/// The JSON object with the manifest's fields in their fixed order, each
/// string field given as the text that stands for it.
pub open spec fn json_object(
    quardle: Seq<char>,
    kernel: Seq<char>,
    initramfs: Seq<char>,
    kernel_cmdline: Seq<char>,
    image: Seq<char>,
    kaps: Seq<char>,
    offline: bool,
    bundle: Seq<char>,
) -> Seq<char> {
    "{\"quardle\":"@ + quardle + ",\"kernel\":"@ + kernel + ",\"initramfs\":"@ + initramfs
        + ",\"kernel_cmdline\":"@ + kernel_cmdline + ",\"image\":"@ + image + ",\"kaps\":"@ + kaps
        + ",\"offline\":"@ + (if offline {
        "true"@
    } else {
        "false"@
    }) + ",\"bundle\":"@ + bundle + "}"@
}

/// The fields of `m` placed as they stand, `null` for an absent bundle.
pub open spec fn verbatim_json(m: &Manifest) -> Seq<char> {
    json_object(
        m.quardle@,
        m.kernel@,
        m.initramfs@,
        m.kernel_cmdline@,
        m.image@,
        m.kaps@,
        m.offline,
        match m.bundle {
            Some(b) => b@,
            None => "null"@,
        },
    )
}

/// The JSON text of `m`: each string field written as a JSON string literal.
pub open spec fn manifest_json(m: &Manifest) -> Seq<char> {
    json_object(
        json_quoted(m.quardle@),
        json_quoted(m.kernel@),
        json_quoted(m.initramfs@),
        json_quoted(m.kernel_cmdline@),
        json_quoted(m.image@),
        json_quoted(m.kaps@),
        m.offline,
        match m.bundle {
            Some(b) => json_quoted(b@),
            None => "null"@,
        },
    )
}

impl Manifest {
    /// The manifest of a build request: fixed member names, the request's
    /// image and mode, and a bundle directory exactly in offline mode.
    pub fn from_request(req: &BuildRequest) -> (r: Manifest)
        ensures
            manifest_of(req, &r),
    {
        let kernel_cmdline = match &req.kernel_cmdline {
            Some(c) => c.clone(),
            None => String::from_str(DEFAULT_KERNEL_CMDLINE),
        };
        let bundle = if req.offline {
            Some(String::from_str(BUNDLE_DIR))
        } else {
            None
        };
        Manifest {
            quardle: req.name.clone(),
            kernel: String::from_str(KERNEL_FILE),
            initramfs: String::from_str(INITRAMFS_FILE),
            kernel_cmdline,
            image: req.image.clone(),
            kaps: String::from_str(KAPS_INSTALL_PATH),
            offline: req.offline,
            bundle,
        }
    }

    /// Places the fields in the manifest's JSON object as they stand: for a
    /// manifest whose string fields already hold JSON literals.
    pub fn render_verbatim(&self) -> (r: String)
        ensures
            r@ == verbatim_json(self),
    {
        let mut s = String::from_str("{\"quardle\":");
        s.append(self.quardle.as_str());
        s.append(",\"kernel\":");
        s.append(self.kernel.as_str());
        s.append(",\"initramfs\":");
        s.append(self.initramfs.as_str());
        s.append(",\"kernel_cmdline\":");
        s.append(self.kernel_cmdline.as_str());
        s.append(",\"image\":");
        s.append(self.image.as_str());
        s.append(",\"kaps\":");
        s.append(self.kaps.as_str());
        s.append(",\"offline\":");
        if self.offline {
            s.append("true");
        } else {
            s.append("false");
        }
        s.append(",\"bundle\":");
        match &self.bundle {
            Some(b) => s.append(b.as_str()),
            None => s.append("null"),
        }
        s.append("}");
        s
    }

    /// The manifest with every string field replaced by its JSON literal.
    fn quoted(&self) -> (r: Result<Manifest, Error>)
        ensures
            r matches Ok(q) ==> {
                &&& q.quardle@ == json_quoted(self.quardle@)
                &&& q.kernel@ == json_quoted(self.kernel@)
                &&& q.initramfs@ == json_quoted(self.initramfs@)
                &&& q.kernel_cmdline@ == json_quoted(self.kernel_cmdline@)
                &&& q.image@ == json_quoted(self.image@)
                &&& q.kaps@ == json_quoted(self.kaps@)
                &&& q.offline == self.offline
                &&& opt_view(q.bundle) == match self.bundle {
                    Some(b) => Some(json_quoted(b@)),
                    None => None::<Seq<char>>,
                }
            },
            r is Ok,
    {
        let quardle = match quote(self.quardle.as_str()) { Some(v) => v, None => return Err(Error::Serialization) };
        let kernel = match quote(self.kernel.as_str()) { Some(v) => v, None => return Err(Error::Serialization) };
        let initramfs = match quote(self.initramfs.as_str()) { Some(v) => v, None => return Err(Error::Serialization) };
        let kernel_cmdline = match quote(self.kernel_cmdline.as_str()) { Some(v) => v, None => return Err(Error::Serialization) };
        let image = match quote(self.image.as_str()) { Some(v) => v, None => return Err(Error::Serialization) };
        let kaps = match quote(self.kaps.as_str()) { Some(v) => v, None => return Err(Error::Serialization) };
        let bundle = match &self.bundle {
            Some(b) => match quote(b.as_str()) {
                Some(v) => Some(v),
                None => return Err(Error::Serialization),
            },
            None => None,
        };
        Ok(Manifest { quardle, kernel, initramfs, kernel_cmdline, image, kaps, offline: self.offline, bundle })
    }

    /// The manifest's JSON text, as written into the staging directory and
    /// the archive. Encoding always succeeds.
    pub fn to_json(&self) -> (r: Result<String, Error>)
        ensures
            r is Ok,
            r matches Ok(t) ==> t@ == manifest_json(self),
    {
        match self.quoted() {
            Ok(q) => Ok(q.render_verbatim()),
            Err(e) => Err(e),
        }
    }
}

/// Every manifest names a bundle exactly when its request is in offline
/// mode, and then it is the fixed bundle directory; in its JSON text the
/// bundle is `null` exactly outside offline mode.
pub proof fn lemma_bundle_iff_offline(req: &BuildRequest, m: &Manifest)
    requires
        manifest_of(req, m),
    ensures
        m.bundle is Some <==> req.offline,
        m.bundle matches Some(b) ==> b@ == BUNDLE_DIR@,
        m.offline == req.offline,
        !req.offline ==> manifest_json(m) == json_object(
            json_quoted(m.quardle@),
            json_quoted(m.kernel@),
            json_quoted(m.initramfs@),
            json_quoted(m.kernel_cmdline@),
            json_quoted(m.image@),
            json_quoted(m.kaps@),
            false,
            "null"@,
        ),
{
}

} // verus!
