# denoise

Denoising and sharpening of astrophotography frames (TIFF, PNG, JPEG).

- `src/` is the verified library: the strength tables of every filter, the
  integer median filter used by the median-then-Gaussian denoisers, how a
  source format is recorded and written back, the naming of output files, and
  the plan of a run (which filters, at which strengths, where the result goes).
- `app/` is the command-line program: argument parsing, reading and writing
  image files, and the floating-point pixel filters, which take their tuning
  and their median pass from the library.
- `tests/` exercises the library on concrete values.

Run: `iris-denoise <input> [-o output] [-s 1-5] [--sharpen [1-5]] -S <default|experimental|a-trous>`.
