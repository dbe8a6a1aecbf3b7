//! What the rows of the tables say.

use crate::compose::{ComposeModel, ProjectModel};
use crate::containers::summary::{ContainerModel, ContainerState};
use crate::containers::view::ContainersModel;
use crate::draw::page::{look_of, with_filter, RowLook};
use crate::images::ImagesModel;
use crate::networks::NetworksModel;
use crate::theme::{Color, Theme};
use crate::volumes::VolumesModel;
use vstd::prelude::*;

verus! {

/// The row under the cursor is marked as such, and no other one is.
pub proof fn one_row_is_selected(i: int, s: usize)
    requires
        i >= 0,
    ensures
        look_of(i, Some(s)) == RowLook::Selected <==> i == s,
        i != s && i % 2 == 1 ==> look_of(i, Some(s)) == RowLook::Alternate,
        i != s && i % 2 == 0 ==> look_of(i, Some(s)) == RowLook::Plain,
{
}

/// A row of the containers tells the first name, behind a box that is filled where the container is
/// marked, the image, the state, and the ports.
pub proof fn container_rows(
    m: ContainersModel,
    i: int,
    pulse: Color,
    id: Seq<char>,
    name: Seq<char>,
    image: Seq<char>,
)
    requires
        0 <= i < m.visible().len(),
        m.rows[m.visible()[i]].id == Some(id),
        m.rows[m.visible()[i]].names == Some(seq![name]),
        m.rows[m.visible()[i]].image == Some(image),
        image.len() <= 36,
    ensures
        ({
            let c: ContainerModel = m.rows[m.visible()[i]];
            let row = m.table(pulse)[i];
            &&& m.table(pulse).len() == m.visible().len()
            &&& row.cells.len() == 5
            &&& m.selected_ids.contains(id) ==> row.cells[1].text == "▣ "@ + name
            &&& !m.selected_ids.contains(id) ==> row.cells[1].text == "▢ "@ + name
            &&& row.cells[2].text == image
            &&& c.state == Some(ContainerState::Running) ==> row.cells[3].text == " "@ + "RUNNING"@
                + " "@ && row.cells[3].style.bg == Some(m.theme.ok)
            &&& c.state == Some(ContainerState::Exited) ==> row.cells[3].text == " "@ + "EXITED"@
                + " "@ && row.cells[3].style.bg == Some(m.theme.err)
            &&& c.state == Some(ContainerState::Paused) ==> row.cells[3].text == " "@ + "PAUSED"@
                + " "@ && row.cells[3].style.bg == Some(m.theme.warn)
            &&& c.ports is None ==> row.cells[4].text.len() == 0
        }),
{
}

/// A row of the images tells the first tag, the size, when the image was made, and the id.
pub proof fn image_rows(m: ImagesModel, i: int, clock: u64, tag: Seq<char>)
    requires
        0 <= i < m.visible().len(),
        m.rows[m.visible()[i]].repo_tags == seq![tag],
        tag.len() <= 42,
        m.rows[m.visible()[i]].id.len() <= 20,
    ensures
        ({
            let img = m.rows[m.visible()[i]];
            let row = m.table(clock)[i];
            &&& m.table(clock).len() == m.visible().len()
            &&& m.selected_ids.contains(img.id) ==> row.cells[0].text == "▣ "@ + tag
            &&& !m.selected_ids.contains(img.id) ==> row.cells[0].text == "▢ "@ + tag
            &&& row.cells[1].text == crate::units::size_text(img.size)
            &&& row.cells[2].text == crate::units::created_text(img.created, clock)
            &&& row.cells[3].text == img.id
        }),
{
}

/// A row of the networks tells the name, the driver, the scope and the id.
pub proof fn network_rows(m: NetworksModel, i: int)
    requires
        0 <= i < m.visible().len(),
        m.rows[m.visible()[i]].id.len() <= 18,
    ensures
        ({
            let nw = m.rows[m.visible()[i]];
            let row = m.table()[i];
            &&& m.table().len() == m.visible().len()
            &&& row.cells[0].text == nw.name
            &&& row.cells[1].text == nw.driver
            &&& row.cells[2].text == nw.scope
            &&& row.cells[4].text == nw.id
        }),
{
}

/// A row of the volumes tells the name, the driver and the mountpoint.
pub proof fn volume_rows(m: VolumesModel, i: int)
    requires
        0 <= i < m.visible().len(),
        m.rows[m.visible()[i]].name.len() <= 30,
        m.rows[m.visible()[i]].mountpoint.len() <= 40,
    ensures
        ({
            let v = m.rows[m.visible()[i]];
            let row = m.table()[i];
            &&& m.table().len() == m.visible().len()
            &&& row.cells[0].text == v.name
            &&& row.cells[1].text == v.driver
            &&& row.cells[2].text == v.mountpoint
        }),
{
}

/// A row of the projects tells the name, the status, the file and the directory.
pub proof fn project_rows(m: ComposeModel, i: int)
    requires
        0 <= i < m.visible().len(),
        m.rows[m.visible()[i]].path.len() <= 60,
    ensures
        ({
            let p: ProjectModel = m.rows[m.visible()[i]];
            let row = m.table()[i];
            &&& m.table().len() == m.visible().len()
            &&& row.cells[0].text == p.name
            &&& p.status is Some ==> row.cells[1].text == p.status->0
            &&& p.status is None ==> row.cells[1].text == "-"@
            &&& row.cells[2].text == p.file_name
            &&& row.cells[3].text == p.path
        }),
{
}

/// What is searched for is told where something is, and only there.
pub proof fn filter_is_told(l: Seq<crate::theme::SpanView>, query: Seq<char>, theme: Theme)
    ensures
        query.len() == 0 ==> with_filter(l, query, theme) == l,
        query.len() > 0 ==> with_filter(l, query, theme).len() == l.len() + 1 && with_filter(
            l,
            query,
            theme,
        ).last().text == " | filter: '"@ + query + "'"@,
{
}

} // verus!
