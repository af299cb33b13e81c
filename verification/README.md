# gpui_ext

Helpers for gpui applications that keep a settings value on disk.

- `src/` is the verified library (Verus):
  - `writer`: the `Save` hook, the file name of a stored value, and
    `SaveSchedule`, which decides when an edit schedules a delayed write
    (one timer at a time, every edit written).
  - `safe_write`: `SafeWrite`, the order of file operations that replace a
    file through a temporary sibling, driven step by step by the caller.
  - `notify`: which window receives a notification.
- `app/` is the gpui glue (globals, views, theme loading, the writer trait,
  the file system calls that drive `SafeWrite`).
- `tests/` exercises the library, including a simulated file system.
