# Litematica JSON Parser

Viewing and managing material lists exported in JSON format from the
Litematica Minecraft mod: view a list with item icons, keep track of the
gathered items, and hide unobtainable items and items chosen by the user.

## Layout

- `src/` is the library, written in Verus and verified:
  - `material_list.rs`, `material_list/material.rs`: the list format and the
    way a missing count is written as shulker boxes, stacks and items;
  - `text.rs`: decimal rendering of integers;
  - `widgets.rs`: a row of the list (`Item`), its messages, and the address
    of an item's icon on the Minecraft wiki;
  - `pages/list_loaded.rs`: the rows a loaded list keeps (auto-hides), the
    filter, and what the list page shows;
  - `pages/preload.rs`: the saved lists offered on the start page;
  - `pages/page_list_loaded.rs`, `pages/page_preload.rs`: the pages as page
    objects of their own;
  - `application.rs`: the application's state and its reaction to every
    message, as a state machine that returns what is to be done next;
  - `config.rs`: the settings and the mapping between the themes and iced's
    built-in themes.
- `app/` is the program around it: the iced windows, the file dialog, the
  files in the application's folders, and icon downloads.
- `tests/` holds the tests of the library.
