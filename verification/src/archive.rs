//! Archive installation planning: turning a downloaded archive image into
//! the list of file-system actions that extract it, with every action
//! confined under the destination directory.
//!
//! The archive format itself is read by an outside library behind one
//! trusted wrapper; everything that decides *where* bytes may land is
//! verified here. An entry whose name would escape the destination — a
//! `..` component, an absolute path, a byte another platform would read
//! as a separator — is never turned into an action: it is skipped, so
//! nothing of it is ever written.

use vstd::prelude::*;
use crate::errors::LauncherError;
use crate::paths::{ends_with_slash, is_dir_name, is_safe_entry_name, is_safe_rel_path};

verus! {

/// One archive entry, as plain values: its raw name, its inflated bytes,
/// and the permission bits it declares, if any.
pub struct ArchiveEntry {
    pub name: Vec<u8>,
    pub data: Vec<u8>,
    pub unix_mode: Option<u32>,
}

impl ArchiveEntry {
    /// The entry as a value triple.
    pub open spec fn entry_view(&self) -> (Seq<u8>, Seq<u8>, Option<u32>) {
        (self.name@, self.data@, self.unix_mode)
    }
}

/// What `zip::ZipArchive` reads out of an archive image: `None` when the
/// bytes are not a valid archive, else every entry in archive order. The
/// result is a function of the bytes alone; its value is not specified
/// here, only relied on through [`read_archive`].
pub uninterp spec fn archive_entries(data: Seq<u8>) -> Option<
    Seq<(Seq<u8>, Seq<u8>, Option<u32>)>,
>;

/// Whether the concrete entries carry exactly these values.
pub open spec fn entries_match(
    v: Seq<ArchiveEntry>,
    es: Seq<(Seq<u8>, Seq<u8>, Option<u32>)>,
) -> bool {
    &&& v.len() == es.len()
    &&& forall|i: int| 0 <= i < es.len() ==> #[trigger] v[i].entry_view() == es[i]
}

/// Relies on `zip::ZipArchive` (`new`, `len`, `by_index`, `name_raw`,
/// `unix_mode`) and the entries' `Read` impl: parsing and inflating an
/// archive image held in memory is a function of the bytes alone, named
/// [`archive_entries`]; the read fails exactly where that parse does.
#[verifier::external_body]
fn read_archive_raw(data: &Vec<u8>) -> (r: Option<Vec<ArchiveEntry>>)
    ensures
        match (r, archive_entries(data@)) {
            (Some(v), Some(es)) => entries_match(v@, es),
            (None, None) => true,
            _ => false,
        },
{
    let mut archive = zip::ZipArchive::new(std::io::Cursor::new(data.as_slice())).ok()?;
    let mut out = Vec::new();
    for i in 0..archive.len() {
        let mut entry = archive.by_index(i).ok()?;
        let name = entry.name_raw().to_vec();
        let unix_mode = entry.unix_mode();
        let mut bytes = Vec::new();
        std::io::Read::read_to_end(&mut entry, &mut bytes).ok()?;
        out.push(ArchiveEntry { name, data: bytes, unix_mode });
    }
    Some(out)
}

/// Reads every entry of the archive image, or fails with the
/// archive-format error exactly when the bytes are not a valid archive.
pub fn read_archive(data: &Vec<u8>) -> (r: Result<Vec<ArchiveEntry>, LauncherError>)
    ensures
        match r {
            Ok(v) => archive_entries(data@) matches Some(es) && entries_match(v@, es),
            Err(e) => e is ArchiveFormat && archive_entries(data@) is None,
        },
{
    match read_archive_raw(data) {
        Some(v) => Ok(v),
        None => Err(LauncherError::ArchiveFormat),
    }
}

/// One file-system action of an extraction plan. Paths are relative; the
/// executor resolves them under the destination directory and creates a
/// file's missing parent directories before writing it.
pub enum ExtractAction {
    /// Create this directory, parents included, idempotently.
    MakeDir { rel_path: Vec<u8> },
    /// Create or truncate this file, write the bytes verbatim, and apply
    /// the declared permission bits afterwards where the platform has
    /// them.
    WriteFile { rel_path: Vec<u8>, data: Vec<u8>, unix_mode: Option<u32> },
}

/// Mathematical image of an [`ExtractAction`].
pub enum ActionView {
    MakeDir { rel_path: Seq<u8> },
    WriteFile { rel_path: Seq<u8>, data: Seq<u8>, unix_mode: Option<u32> },
}

impl View for ExtractAction {
    type V = ActionView;

    open spec fn view(&self) -> ActionView {
        match self {
            ExtractAction::MakeDir { rel_path } => ActionView::MakeDir { rel_path: rel_path@ },
            ExtractAction::WriteFile { rel_path, data, unix_mode } => ActionView::WriteFile {
                rel_path: rel_path@,
                data: data@,
                unix_mode: *unix_mode,
            },
        }
    }
}

/// The path an action touches.
pub open spec fn action_path(a: ActionView) -> Seq<u8> {
    match a {
        ActionView::MakeDir { rel_path } => rel_path,
        ActionView::WriteFile { rel_path, .. } => rel_path,
    }
}

/// The actions one entry contributes: nothing when its name would escape
/// the destination, a directory for a name ending in the separator, and
/// otherwise the file with its bytes and declared permissions.
pub open spec fn entry_actions(e: (Seq<u8>, Seq<u8>, Option<u32>)) -> Seq<ActionView> {
    if !is_safe_rel_path(e.0) {
        Seq::empty()
    } else if is_dir_name(e.0) {
        seq![ActionView::MakeDir { rel_path: e.0 }]
    } else {
        seq![ActionView::WriteFile { rel_path: e.0, data: e.1, unix_mode: e.2 }]
    }
}

/// The whole extraction plan: each entry's actions, in archive order.
pub open spec fn plan_spec(entries: Seq<(Seq<u8>, Seq<u8>, Option<u32>)>) -> Seq<ActionView>
    decreases entries.len(),
{
    if entries.len() == 0 {
        Seq::empty()
    } else {
        plan_spec(entries.drop_last()) + entry_actions(entries.last())
    }
}

/// Law: extraction never writes outside the destination directory. Every
/// action of the plan — and so every path the executor touches — is a
/// confined relative path; an entry that would escape, such as one named
/// with a leading `..` component, contributes no action at all, so
/// nothing of it is ever written.
pub proof fn lemma_extraction_confined(entries: Seq<(Seq<u8>, Seq<u8>, Option<u32>)>)
    ensures
        forall|i: int|
            0 <= i < plan_spec(entries).len() ==> is_safe_rel_path(
                action_path(#[trigger] plan_spec(entries)[i]),
            ),
    decreases entries.len(),
{
    if entries.len() > 0 {
        lemma_extraction_confined(entries.drop_last());
        let pre = plan_spec(entries.drop_last());
        let tail = entry_actions(entries.last());
        assert forall|i: int|
            0 <= i < plan_spec(entries).len() implies is_safe_rel_path(
            action_path(#[trigger] plan_spec(entries)[i]),
        ) by {
            if i < pre.len() {
                assert(plan_spec(entries)[i] == pre[i]);
            } else {
                assert(plan_spec(entries)[i] == tail[i - pre.len()]);
            }
        }
    }
}

/// Builds the extraction plan for these entries: [`plan_spec`] as
/// concrete actions, every one of them confined.
pub fn plan_extraction(entries: Vec<ArchiveEntry>) -> (plan: Vec<ExtractAction>)
    ensures
        plan@.map_values(|a: ExtractAction| a@) == plan_spec(
            entries@.map_values(|e: ArchiveEntry| e.entry_view()),
        ),
        forall|i: int|
            0 <= i < plan@.len() ==> is_safe_rel_path(action_path(#[trigger] plan@[i]@)),
    {
    let ghost evs = entries@.map_values(|e: ArchiveEntry| e.entry_view());
    let mut rest = entries;
    let n = rest.len();
    let mut plan: Vec<ExtractAction> = Vec::new();
    let mut k: usize = 0;
    while k < n
        invariant
            k <= n,
            n == evs.len(),
            rest@.len() == n - k,
            rest@.map_values(|e: ArchiveEntry| e.entry_view()) =~= evs.skip(k as int),
            plan@.map_values(|a: ExtractAction| a@) =~= plan_spec(evs.take(k as int)),
            forall|i: int|
                0 <= i < plan@.len() ==> is_safe_rel_path(action_path(#[trigger] plan@[i]@)),
        decreases n - k,
    {
        let ghost plan_before = plan@.map_values(|a: ExtractAction| a@);
        let ghost rest_pre = rest@;
        let entry = rest.remove(0);
        proof {
            assert(rest_pre.map_values(|e: ArchiveEntry| e.entry_view())[0] == entry.entry_view());
            assert(evs.skip(k as int)[0] == evs[k as int]);
            assert(entry.entry_view() == evs[k as int]);
            assert forall|j: int|
                0 <= j < rest@.len() implies #[trigger] rest@[j].entry_view() == evs.skip(
                k as int + 1,
            )[j] by {
                assert(rest@[j] == rest_pre[j + 1]);
                assert(rest_pre.map_values(|e: ArchiveEntry| e.entry_view())[j + 1] == evs.skip(
                    k as int,
                )[j + 1]);
            }
            assert(rest@.map_values(|e: ArchiveEntry| e.entry_view()) =~= evs.skip(k as int + 1));
            assert(evs.take(k as int + 1).drop_last() =~= evs.take(k as int));
            assert(evs.take(k as int + 1).last() == evs[k as int]);
        }
        if is_safe_entry_name(&entry.name) {
            if ends_with_slash(&entry.name) {
                plan.push(ExtractAction::MakeDir { rel_path: entry.name });
            } else {
                plan.push(
                    ExtractAction::WriteFile {
                        rel_path: entry.name,
                        data: entry.data,
                        unix_mode: entry.unix_mode,
                    },
                );
            }
        }
        proof {
            assert(plan@.map_values(|a: ExtractAction| a@) =~= plan_before + entry_actions(
                evs[k as int],
            ));
            assert(plan@.map_values(|a: ExtractAction| a@) =~= plan_spec(evs.take(k as int + 1)));
        }
        k += 1;
    }
    proof {
        assert(evs.take(n as int) =~= evs);
    }
    plan
}

/// Whether an extraction-status event is due at this entry: the original
/// cadence reports every tenth entry, the first included.
pub fn should_report_entry(index: usize) -> (r: bool)
    ensures
        r == (index % 10 == 0),
{
    index % 10 == 0
}

} // verus!
