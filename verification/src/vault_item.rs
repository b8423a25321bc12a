//! The kinds of thing that the vault tool can be asked for, and the names
//! under which the tool and the command line know them.

use vstd::prelude::*;
use vstd::string::*;
use crate::text::joined;
use crate::text::same_text;

verus! {

/// What a `get` asks the vault for.
#[derive(Debug, Clone, Copy, PartialEq, Eq, Structural)]
pub enum VaultItemType {
    Item,
    Username,
    Password,
    Uri,
    Totp,
    Exposed,
    Attachment,
    Folder,
    Collection,
    Organization,
    OrgCollection,
    Template,
    Fingerprint,
}

impl VaultItemType {
    /// The one name of this kind: lower case, hyphenated.
    pub open spec fn canonical(self) -> Seq<char> {
        match self {
            VaultItemType::Item => "item"@,
            VaultItemType::Username => "username"@,
            VaultItemType::Password => "password"@,
            VaultItemType::Uri => "uri"@,
            VaultItemType::Totp => "totp"@,
            VaultItemType::Exposed => "exposed"@,
            VaultItemType::Attachment => "attachment"@,
            VaultItemType::Folder => "folder"@,
            VaultItemType::Collection => "collection"@,
            VaultItemType::Organization => "organization"@,
            VaultItemType::OrgCollection => "org-collection"@,
            VaultItemType::Template => "template"@,
            VaultItemType::Fingerprint => "fingerprint"@,
        }
    }

    /// The kind that a text names, if it names one.
    pub open spec fn named_by(text: Seq<char>) -> Option<VaultItemType> {
        if text == "item"@ {
            Some(VaultItemType::Item)
        } else if text == "username"@ {
            Some(VaultItemType::Username)
        } else if text == "password"@ {
            Some(VaultItemType::Password)
        } else if text == "uri"@ {
            Some(VaultItemType::Uri)
        } else if text == "totp"@ {
            Some(VaultItemType::Totp)
        } else if text == "exposed"@ {
            Some(VaultItemType::Exposed)
        } else if text == "attachment"@ {
            Some(VaultItemType::Attachment)
        } else if text == "folder"@ {
            Some(VaultItemType::Folder)
        } else if text == "collection"@ {
            Some(VaultItemType::Collection)
        } else if text == "organization"@ {
            Some(VaultItemType::Organization)
        } else if text == "org-collection"@ {
            Some(VaultItemType::OrgCollection)
        } else if text == "template"@ {
            Some(VaultItemType::Template)
        } else if text == "fingerprint"@ {
            Some(VaultItemType::Fingerprint)
        } else {
            None
        }
    }

    /// What is reported for a text that names no kind: the text itself, and
    /// that it is not valid.
    pub open spec fn rejection(text: Seq<char>) -> Seq<char> {
        text + " is not a valid VaultItemType"@
    }

    /// The canonical name, as the vault tool takes it on its command line.
    pub fn as_str(&self) -> (name: &'static str)
        ensures
            name@ == self.canonical(),
    {
        match self {
            VaultItemType::Item => "item",
            VaultItemType::Username => "username",
            VaultItemType::Password => "password",
            VaultItemType::Uri => "uri",
            VaultItemType::Totp => "totp",
            VaultItemType::Exposed => "exposed",
            VaultItemType::Attachment => "attachment",
            VaultItemType::Folder => "folder",
            VaultItemType::Collection => "collection",
            VaultItemType::Organization => "organization",
            VaultItemType::OrgCollection => "org-collection",
            VaultItemType::Template => "template",
            VaultItemType::Fingerprint => "fingerprint",
        }
    }

    /// The canonical name as an owned string.
    pub fn to_string(&self) -> (name: String)
        ensures
            name@ == self.canonical(),
    {
        String::from_str(self.as_str())
    }

    /// Reads a kind from its canonical name. Any other text is refused, and
    /// the refusal names the text.
    pub fn from_str(s: &str) -> (read: Result<VaultItemType, String>)
        ensures
            match read {
                Ok(kind) => Self::named_by(s@) == Some(kind),
                Err(message) => Self::named_by(s@) is None && message@ == Self::rejection(s@),
            },
    {
        if same_text(s, "item") {
            Ok(VaultItemType::Item)
        } else if same_text(s, "username") {
            Ok(VaultItemType::Username)
        } else if same_text(s, "password") {
            Ok(VaultItemType::Password)
        } else if same_text(s, "uri") {
            Ok(VaultItemType::Uri)
        } else if same_text(s, "totp") {
            Ok(VaultItemType::Totp)
        } else if same_text(s, "exposed") {
            Ok(VaultItemType::Exposed)
        } else if same_text(s, "attachment") {
            Ok(VaultItemType::Attachment)
        } else if same_text(s, "folder") {
            Ok(VaultItemType::Folder)
        } else if same_text(s, "collection") {
            Ok(VaultItemType::Collection)
        } else if same_text(s, "organization") {
            Ok(VaultItemType::Organization)
        } else if same_text(s, "org-collection") {
            Ok(VaultItemType::OrgCollection)
        } else if same_text(s, "template") {
            Ok(VaultItemType::Template)
        } else if same_text(s, "fingerprint") {
            Ok(VaultItemType::Fingerprint)
        } else {
            Err(joined(s, " is not a valid VaultItemType"))
        }
    }
}

impl std::str::FromStr for VaultItemType {
    type Err = String;

    /// Reads a kind as the associated function of the same name does: from
    /// its canonical name, and with a refusal that names any other text.
    fn from_str(s: &str) -> (read: Result<Self, Self::Err>)
        ensures
            match read {
                Ok(kind) => VaultItemType::named_by(s@) == Some(kind),
                Err(message) => VaultItemType::named_by(s@) is None && message@
                    == VaultItemType::rejection(s@),
            },
    {
        VaultItemType::from_str(s)
    }
}

/// The canonical names are pairwise distinct, so reading a kind's own name
/// gives that kind back.
pub proof fn canonical_name_reads_back(kind: VaultItemType)
    ensures
        VaultItemType::named_by(kind.canonical()) == Some(kind),
{
    reveal_strlit("item");
    reveal_strlit("username");
    reveal_strlit("password");
    reveal_strlit("uri");
    reveal_strlit("totp");
    reveal_strlit("exposed");
    reveal_strlit("attachment");
    reveal_strlit("folder");
    reveal_strlit("collection");
    reveal_strlit("organization");
    reveal_strlit("org-collection");
    reveal_strlit("template");
    reveal_strlit("fingerprint");
    assert("item"@.len() == 4 && "item"@[0] == 'i');
    assert("totp"@.len() == 4 && "totp"@[0] == 't');
    assert("username"@.len() == 8 && "username"@[0] == 'u');
    assert("password"@.len() == 8 && "password"@[0] == 'p');
    assert("template"@.len() == 8 && "template"@[0] == 't');
    assert("attachment"@.len() == 10 && "attachment"@[0] == 'a');
    assert("collection"@.len() == 10 && "collection"@[0] == 'c');
    assert("uri"@.len() == 3);
    assert("exposed"@.len() == 7);
    assert("folder"@.len() == 6);
    assert("organization"@.len() == 12);
    assert("org-collection"@.len() == 14);
    assert("fingerprint"@.len() == 11);
}

/// A text names a kind exactly when it is that kind's canonical name: each
/// kind has one name and each name one kind.
pub proof fn names_and_kinds_correspond(text: Seq<char>, kind: VaultItemType)
    ensures
        VaultItemType::named_by(text) == Some(kind) <==> text == kind.canonical(),
{
    canonical_name_reads_back(kind);
}

/// A text outside the canonical names is refused, whichever kind one tries.
pub proof fn other_text_names_nothing(text: Seq<char>)
    requires
        forall|kind: VaultItemType| text != #[trigger] kind.canonical(),
    ensures
        VaultItemType::named_by(text) is None,
{
    assert(text != VaultItemType::Item.canonical());
    assert(text != VaultItemType::Username.canonical());
    assert(text != VaultItemType::Password.canonical());
    assert(text != VaultItemType::Uri.canonical());
    assert(text != VaultItemType::Totp.canonical());
    assert(text != VaultItemType::Exposed.canonical());
    assert(text != VaultItemType::Attachment.canonical());
    assert(text != VaultItemType::Folder.canonical());
    assert(text != VaultItemType::Collection.canonical());
    assert(text != VaultItemType::Organization.canonical());
    assert(text != VaultItemType::OrgCollection.canonical());
    assert(text != VaultItemType::Template.canonical());
    assert(text != VaultItemType::Fingerprint.canonical());
}

} // verus!
